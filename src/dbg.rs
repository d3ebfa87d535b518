use vstd::prelude::*;
use crate::bus::{read_spec, write_spec};
use crate::cpu::Cpu;

verus! {

/// Serial capture: conformance programs report over the serial port, one byte per
/// transfer started with control value 0x81.
pub struct Dbg {
    pub msg: Vec<u8>,
}

impl Dbg {
    /// An empty capture.
    pub fn new() -> (r: Self)
        ensures
            r.msg@.len() == 0,
    {
        Dbg { msg: Vec::new() }
    }

    /// When a transfer was started (0xFF02 reads 0x81), appends the data byte (0xFF01) and
    /// clears the control register; otherwise changes nothing.
    pub fn update(&mut self, cpu: &mut Cpu)
        requires
            old(cpu).wf(),
        ensures
            final(cpu).wf(),
            final(cpu).registers == old(cpu).registers,
            read_spec(old(cpu)@.bus, 0xFF02) == 0x81 ==> final(self).msg@
                == old(self).msg@.push(read_spec(old(cpu)@.bus, 0xFF01)) && final(cpu)@.bus
                == write_spec(old(cpu)@.bus, 0xFF02, 0),
            read_spec(old(cpu)@.bus, 0xFF02) != 0x81 ==> final(self).msg@ == old(self).msg@
                && final(cpu)@ == old(cpu)@,
    {
        if cpu.bus.read(0xFF02) == 0x81 {
            let c = cpu.bus.read(0xFF01);
            self.msg.push(c);
            cpu.bus.write(0xFF02, 0);
        }
    }
}

} // verus!
