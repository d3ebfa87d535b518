use vstd::prelude::*;
use crate::bus::read_spec;
use crate::cpu::{Cpu, CpuView, mem_write};
use crate::registers::Registers;

verus! {

/// The stack protocol: SP is decremented before each push and incremented after each pop.
pub struct Stack {}

/// The state after pushing a byte.
pub open spec fn push_spec(s: CpuView, v: u8) -> CpuView {
    let sp = s.regs.sp.wrapping_sub(1);
    mem_write(CpuView { regs: Registers { sp, ..s.regs }, ..s }, sp, v)
}

/// The state after popping a byte.
pub open spec fn pop_state(s: CpuView) -> CpuView {
    CpuView { regs: Registers { sp: s.regs.sp.wrapping_add(1), ..s.regs }, ..s }
}

/// The byte a pop returns.
pub open spec fn pop_value(s: CpuView) -> u8 {
    read_spec(s.bus, s.regs.sp)
}

/// The state after pushing a word: the high byte first, then the low byte.
pub open spec fn push16_spec(s: CpuView, v: u16) -> CpuView {
    push_spec(push_spec(s, (v / 256) as u8), (v % 256) as u8)
}

/// The state after popping a word.
pub open spec fn pop16_state(s: CpuView) -> CpuView {
    pop_state(pop_state(s))
}

/// The word a pop returns: the low byte first, then the high byte.
pub open spec fn pop16_value(s: CpuView) -> u16 {
    (pop_value(s) as int + 256 * pop_value(pop_state(s)) as int) as u16
}

impl Stack {
    pub fn push(cpu: &mut Cpu, data: u8)
        requires
            old(cpu).wf(),
        ensures
            final(cpu).wf(),
            final(cpu)@ == push_spec(old(cpu)@, data),
    {
        cpu.registers.sp = cpu.registers.sp.wrapping_sub(1);
        let sp = cpu.registers.sp;
        cpu.bus.write(sp, data);
    }

    pub fn pop(cpu: &mut Cpu) -> (r: u8)
        requires
            old(cpu).wf(),
        ensures
            final(cpu).wf(),
            r == pop_value(old(cpu)@),
            final(cpu)@ == pop_state(old(cpu)@),
    {
        let v = cpu.bus.read(cpu.registers.sp);
        cpu.registers.sp = cpu.registers.sp.wrapping_add(1);
        v
    }

    pub fn push16(cpu: &mut Cpu, data: u16)
        requires
            old(cpu).wf(),
        ensures
            final(cpu).wf(),
            final(cpu)@ == push16_spec(old(cpu)@, data),
    {
        Self::push(cpu, (data / 256) as u8);
        Self::push(cpu, (data % 256) as u8);
    }

    pub fn pop16(cpu: &mut Cpu) -> (r: u16)
        requires
            old(cpu).wf(),
        ensures
            final(cpu).wf(),
            r == pop16_value(old(cpu)@),
            final(cpu)@ == pop16_state(old(cpu)@),
    {
        let lo = Self::pop(cpu) as u16;
        let hi = Self::pop(cpu) as u16;
        lo + 256 * hi
    }
}

} // verus!
