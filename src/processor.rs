use vstd::prelude::*;
use crate::bus::read_spec;
use crate::cpu::{Cpu, CpuView, tick, set_reg, set_flags_spec, mem_write};
use crate::enums::{AddressMode, ConditionType, RegisterType};
use crate::registers::{Registers, is_16bit_spec};
use crate::stack::{Stack, push16_spec, push_spec, pop_state, pop_value};

verus! {

/// Whether a branch condition holds for the given flags.
pub open spec fn condition_holds(r: Registers, c: ConditionType) -> bool {
    match c {
        ConditionType::Always => true,
        ConditionType::Nz => !r.z(),
        ConditionType::Z => r.z(),
        ConditionType::Nc => !r.cy(),
        ConditionType::C => r.cy(),
    }
}

/// `x` plus the signed byte `e`, modulo 2^16.
pub open spec fn add_signed8(x: u16, e: u8) -> u16 {
    if e < 128 {
        x.wrapping_add(e as u16)
    } else {
        x.wrapping_sub((256 - e) as u16)
    }
}

/// The state with PC set.
pub open spec fn set_pc(s: CpuView, a: u16) -> CpuView {
    CpuView { regs: Registers { pc: a, ..s.regs }, ..s }
}

/// The shared jump: when the instruction's condition holds, optionally push PC (two
/// M-cycles), then jump (one M-cycle); otherwise nothing happens.
pub open spec fn goto_spec(s: CpuView, addr: u16, pushpc: bool) -> CpuView {
    if condition_holds(s.regs, s.instruction.cond_type) {
        if pushpc {
            tick(set_pc(push16_spec(tick(s, 2), s.regs.pc), addr), 1)
        } else {
            tick(set_pc(s, addr), 1)
        }
    } else {
        s
    }
}

/// Target of `RST`: the descriptor's literal parameter.
pub open spec fn rst_target(s: CpuView) -> u16 {
    match s.instruction.param {
        Some(p) => p as u16,
        None => 0,
    }
}

/// `JP`: to the resolved address; `JP HL` takes no extra M-cycle.
pub open spec fn jp_spec(s: CpuView) -> CpuView {
    if s.instruction.addr_mode == AddressMode::R {
        set_pc(s, s.fetched_data)
    } else {
        goto_spec(s, s.fetched_data, false)
    }
}

/// `JR`: to PC plus the signed operand.
pub open spec fn jr_spec(s: CpuView) -> CpuView {
    goto_spec(s, add_signed8(s.regs.pc, s.fetched_data as u8), false)
}

/// `RET`: a condition costs one M-cycle; when it holds, pops PC in three M-cycles.
pub open spec fn ret_spec(s: CpuView) -> CpuView {
    let s1 = if s.instruction.cond_type != ConditionType::Always { tick(s, 1) } else { s };
    if condition_holds(s.regs, s.instruction.cond_type) {
        let lo = pop_value(s1);
        let s2 = tick(pop_state(s1), 1);
        let hi = pop_value(s2);
        let s3 = tick(pop_state(s2), 1);
        tick(set_pc(s3, (lo as int + 256 * hi as int) as u16), 1)
    } else {
        s1
    }
}

/// `POP rr`: low byte then high byte, one M-cycle each; into AF the low nibble of F clears.
pub open spec fn pop_spec(s: CpuView) -> CpuView {
    let lo = pop_value(s);
    let s2 = tick(pop_state(s), 1);
    let hi = pop_value(s2);
    let s3 = tick(pop_state(s2), 1);
    set_reg(s3, s.instruction.reg1, (lo as int + 256 * hi as int) as u16)
}

/// `PUSH rr`: high byte then low byte, four M-cycles in all.
pub open spec fn push_op_spec(s: CpuView) -> CpuView {
    let v = s.regs.read_spec(s.instruction.reg1);
    let s1 = push_spec(tick(s, 1), (v / 256) as u8);
    let s2 = push_spec(tick(s1, 1), (v % 256) as u8);
    tick(s2, 1)
}

/// Loads: to memory (a 16-bit register as a little-endian word), the SP-relative load
/// into HL with its flags, or a register.
pub open spec fn ld_spec(s: CpuView) -> CpuView {
    let i = s.instruction;
    if s.dest_is_mem {
        if is_16bit_spec(i.reg2) {
            let s1 = tick(s, 1);
            tick(
                CpuView { bus: crate::bus::write16_spec(s1.bus, s.mem_dest, s.fetched_data), ..s1 },
                1,
            )
        } else {
            tick(mem_write(s, s.mem_dest, s.fetched_data as u8), 1)
        }
    } else if i.addr_mode == AddressMode::HlSpR {
        let sp = s.regs.read_spec(i.reg2);
        let e = s.fetched_data as u8;
        let h = sp % 16 + e % 16 >= 16;
        let c = sp % 256 + e as u16 >= 256;
        tick(
            set_reg(set_flags_spec(s, Some(false), Some(false), Some(h), Some(c)), i.reg1, add_signed8(sp, e)),
            1,
        )
    } else if is_16bit_spec(i.reg1) && i.addr_mode == AddressMode::Rr {
        tick(set_reg(s, i.reg1, s.fetched_data), 1)
    } else {
        set_reg(s, i.reg1, s.fetched_data)
    }
}

/// `LDH`: between A and the high page, one M-cycle for the access.
pub open spec fn ldh_spec(s: CpuView) -> CpuView {
    if s.instruction.reg1 == RegisterType::A {
        tick(set_reg(s, RegisterType::A, read_spec(s.bus, 0xFF00 | s.fetched_data) as u16), 1)
    } else {
        tick(mem_write(s, s.mem_dest, s.regs.a), 1)
    }
}

impl Cpu {
    fn check_condition(&self) -> (r: bool)
        ensures
            r == condition_holds(self.registers, self.instruction.cond_type),
    {
        match self.instruction.cond_type {
            ConditionType::Always => true,
            ConditionType::C => self.registers.flag_c(),
            ConditionType::Nc => !self.registers.flag_c(),
            ConditionType::Z => self.registers.flag_z(),
            ConditionType::Nz => !self.registers.flag_z(),
        }
    }

    /// Jumps to `addr` when the instruction's condition holds, first pushing PC when
    /// `pushpc` is set.
    pub fn goto_addr(&mut self, addr: u16, pushpc: bool)
        requires
            old(self).wf(),
        ensures
            final(self).wf(),
            final(self)@ == goto_spec(old(self)@, addr, pushpc),
    {
        if self.check_condition() {
            if pushpc {
                self.bus.cycles(2);
                let pc = self.registers.pc;
                Stack::push16(self, pc);
            }
            self.registers.pc = addr;
            self.bus.cycles(1);
        }
    }

    pub(crate) fn process_jp(&mut self)
        requires
            old(self).wf(),
        ensures
            final(self).wf(),
            final(self)@ == jp_spec(old(self)@),
    {
        if self.instruction.addr_mode == AddressMode::R {
            self.registers.pc = self.fetched_data;
        } else {
            self.goto_addr(self.fetched_data, false);
        }
    }

    pub(crate) fn process_jr(&mut self)
        requires
            old(self).wf(),
        ensures
            final(self).wf(),
            final(self)@ == jr_spec(old(self)@),
    {
        let e = self.fetched_data as u8;
        let pc = self.registers.pc;
        let addr = if e < 128 { pc.wrapping_add(e as u16) } else { pc.wrapping_sub(256 - e as u16) };
        self.goto_addr(addr, false);
    }

    pub(crate) fn process_call(&mut self)
        requires
            old(self).wf(),
        ensures
            final(self).wf(),
            final(self)@ == goto_spec(old(self)@, old(self)@.fetched_data, true),
    {
        self.goto_addr(self.fetched_data, true);
    }

    pub(crate) fn process_rst(&mut self)
        requires
            old(self).wf(),
        ensures
            final(self).wf(),
            final(self)@ == goto_spec(old(self)@, rst_target(old(self)@), true),
    {
        let t: u16 = match self.instruction.param {
            Some(p) => p as u16,
            None => 0,
        };
        self.goto_addr(t, true);
    }

    pub(crate) fn process_ret(&mut self)
        requires
            old(self).wf(),
        ensures
            final(self).wf(),
            final(self)@ == ret_spec(old(self)@),
    {
        if self.instruction.cond_type != ConditionType::Always {
            self.bus.cycles(1);
        }
        if self.check_condition() {
            let lo = Stack::pop(self) as u16;
            self.bus.cycles(1);
            let hi = Stack::pop(self) as u16;
            self.bus.cycles(1);
            self.registers.pc = lo + 256 * hi;
            self.bus.cycles(1);
        }
    }

    pub(crate) fn process_reti(&mut self)
        requires
            old(self).wf(),
        ensures
            final(self).wf(),
            final(self)@ == ret_spec(CpuView { ime: true, ..old(self)@ }),
    {
        self.int_master_enabled = true;
        self.process_ret();
    }

    pub(crate) fn process_pop(&mut self)
        requires
            old(self).wf(),
        ensures
            final(self).wf(),
            final(self)@ == pop_spec(old(self)@),
    {
        let lo = Stack::pop(self) as u16;
        self.bus.cycles(1);
        let hi = Stack::pop(self) as u16;
        self.bus.cycles(1);
        let r = self.instruction.reg1;
        self.set_register(r, lo + 256 * hi);
    }

    pub(crate) fn process_push(&mut self)
        requires
            old(self).wf(),
        ensures
            final(self).wf(),
            final(self)@ == push_op_spec(old(self)@),
    {
        let v = self.read_register(self.instruction.reg1);
        self.bus.cycles(1);
        Stack::push(self, (v / 256) as u8);
        self.bus.cycles(1);
        Stack::push(self, (v % 256) as u8);
        self.bus.cycles(1);
    }

    pub(crate) fn process_ld(&mut self)
        requires
            old(self).wf(),
        ensures
            final(self).wf(),
            final(self)@ == ld_spec(old(self)@),
    {
        let i = self.instruction;
        if self.dest_is_mem {
            if Self::is_16bit(i.reg2) {
                self.bus.cycles(1);
                self.bus.write16(self.mem_dest, self.fetched_data);
            } else {
                self.bus.write(self.mem_dest, self.fetched_data as u8);
            }
            self.bus.cycles(1);
            return;
        }
        if i.addr_mode == AddressMode::HlSpR {
            let sp = self.read_register(i.reg2);
            let e = self.fetched_data as u8;
            let h = sp % 16 + (e % 16) as u16 >= 16;
            let c = sp % 256 + e as u16 >= 256;
            self.set_flags(Some(false), Some(false), Some(h), Some(c));
            let v = if e < 128 { sp.wrapping_add(e as u16) } else { sp.wrapping_sub(256 - e as u16) };
            self.set_register(i.reg1, v);
            self.bus.cycles(1);
            return;
        }
        if Self::is_16bit(i.reg1) && i.addr_mode == AddressMode::Rr {
            self.set_register(i.reg1, self.fetched_data);
            self.bus.cycles(1);
            return;
        }
        self.set_register(i.reg1, self.fetched_data);
    }

    pub(crate) fn process_ldh(&mut self)
        requires
            old(self).wf(),
        ensures
            final(self).wf(),
            final(self)@ == ldh_spec(old(self)@),
    {
        if self.instruction.reg1 == RegisterType::A {
            let v = self.bus.read(0xFF00 | self.fetched_data);
            self.set_register(RegisterType::A, v as u16);
        } else {
            let a = self.registers.a;
            self.bus.write(self.mem_dest, a);
        }
        self.bus.cycles(1);
    }

    /// Whether a register identifier names a 16-bit register.
    pub(crate) fn is_16bit(reg_type: RegisterType) -> (r: bool)
        ensures
            r == is_16bit_spec(reg_type),
    {
        match reg_type {
            RegisterType::Af | RegisterType::Bc | RegisterType::De | RegisterType::Hl | RegisterType::Sp | RegisterType::Pc => true,
            _ => false,
        }
    }
}

} // verus!
