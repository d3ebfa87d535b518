use vstd::prelude::*;
use crate::cart::Cart;
use crate::cpu::{Cpu, CpuFault, power_on_registers};
use crate::dbg::Dbg;
use crate::engine::{step_faults, step_spec};

verus! {

/// The emulator session: the engine, its serial capture and the run state.
pub struct Emu {
    pub cpu: Cpu,
    pub dbg: Dbg,
    pub paused: bool,
    pub running: bool,
    pub die: bool,
}

impl Emu {
    /// A running session at power-on over `cart`.
    pub fn new(cart: Cart) -> (r: Self)
        requires
            cart.ram@.len() == 0x2000,
        ensures
            r.cpu.wf(),
            power_on_registers(r.cpu.registers),
            r.cpu.bus@.rom == cart.rom@,
            r.dbg.msg@.len() == 0,
            r.running && !r.paused && !r.die,
    {
        Emu { cpu: Cpu::new(cart), dbg: Dbg::new(), paused: false, running: true, die: false }
    }

    /// One turn of the run loop: a quit request ends the session; otherwise, unless
    /// paused, the engine takes one step and the serial capture is updated. Returns
    /// whether the session goes on; a fatal step ends it with the fault.
    pub fn turn(&mut self, quit: bool) -> (r: Result<bool, CpuFault>)
        requires
            old(self).cpu.wf(),
        ensures
            final(self).cpu.wf(),
            quit ==> r == Ok::<bool, CpuFault>(false) && final(self).die && !final(self).running
                && final(self).cpu@ == old(self).cpu@,
            (!quit && old(self).paused) ==> r == Ok::<bool, CpuFault>(true) && final(self).cpu@ == old(self).cpu@,
            (!quit && !old(self).paused) ==> (r is Err <==> step_faults(old(self).cpu@)),
            (!quit && !old(self).paused && r is Ok) ==> r == Ok::<bool, CpuFault>(true)
                && final(self).cpu.registers == step_spec(old(self).cpu@).regs,
            r is Err ==> !final(self).running,
    {
        if quit {
            self.die = true;
            self.running = false;
            return Ok(false);
        }
        if self.paused {
            return Ok(true);
        }
        match self.cpu.step() {
            Ok(()) => {
                self.dbg.update(&mut self.cpu);
                Ok(true)
            },
            Err(f) => {
                self.running = false;
                Err(f)
            },
        }
    }
}

} // verus!
