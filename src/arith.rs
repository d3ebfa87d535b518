use vstd::prelude::*;
use crate::cpu::{Cpu, CpuView, tick, set_reg, set_flags_spec, mem_write};
use crate::enums::{AddressMode, RegisterType};
use crate::processor::add_signed8;
use crate::registers::is_16bit_spec;

verus! {

/// `INC`: a 16-bit register wraps and takes one M-cycle, no flags; an 8-bit register or
/// memory at HL wraps and sets Zero and Half-carry, clears Subtract, keeps Carry.
pub open spec fn inc_spec(s: CpuView) -> CpuView {
    let i = s.instruction;
    if i.addr_mode == AddressMode::Mr {
        let v = (s.fetched_data as u8).wrapping_add(1);
        set_flags_spec(tick(mem_write(s, s.mem_dest, v), 1), Some(v == 0), Some(false), Some(v % 16 == 0), None)
    } else if is_16bit_spec(i.reg1) {
        tick(set_reg(s, i.reg1, s.regs.read_spec(i.reg1).wrapping_add(1)), 1)
    } else {
        let v = (s.regs.read_spec(i.reg1) as u8).wrapping_add(1);
        set_flags_spec(set_reg(s, i.reg1, v as u16), Some(v == 0), Some(false), Some(v % 16 == 0), None)
    }
}

/// `DEC`: as `INC`, downwards; Subtract is set, Half-carry is set on a borrow from bit 4.
pub open spec fn dec_spec(s: CpuView) -> CpuView {
    let i = s.instruction;
    if i.addr_mode == AddressMode::Mr {
        let v = (s.fetched_data as u8).wrapping_sub(1);
        set_flags_spec(tick(mem_write(s, s.mem_dest, v), 1), Some(v == 0), Some(true), Some(v % 16 == 15), None)
    } else if is_16bit_spec(i.reg1) {
        tick(set_reg(s, i.reg1, s.regs.read_spec(i.reg1).wrapping_sub(1)), 1)
    } else {
        let v = (s.regs.read_spec(i.reg1) as u8).wrapping_sub(1);
        set_flags_spec(set_reg(s, i.reg1, v as u16), Some(v == 0), Some(true), Some(v % 16 == 15), None)
    }
}

/// `ADD`: into HL (Zero kept, carries from bits 11 and 15, one extra M-cycle), into SP
/// (a signed byte, Zero cleared, carries from the low byte, two extra M-cycles), or into A.
pub open spec fn add_spec(s: CpuView) -> CpuView {
    let i = s.instruction;
    if i.reg1 == RegisterType::Hl {
        let hl = s.regs.read_spec(RegisterType::Hl);
        let v = s.fetched_data;
        set_flags_spec(
            set_reg(tick(s, 1), RegisterType::Hl, hl.wrapping_add(v)),
            None,
            Some(false),
            Some(hl % 4096 + v % 4096 >= 4096),
            Some(hl as int + v as int >= 65536),
        )
    } else if i.reg1 == RegisterType::Sp {
        let sp = s.regs.sp;
        let e = s.fetched_data as u8;
        set_flags_spec(
            set_reg(tick(s, 2), RegisterType::Sp, add_signed8(sp, e)),
            Some(false),
            Some(false),
            Some(sp % 16 + e as u16 % 16 >= 16),
            Some(sp % 256 + e as u16 >= 256),
        )
    } else {
        let a = s.regs.a;
        let v = s.fetched_data as u8;
        let r = a.wrapping_add(v);
        set_flags_spec(
            set_reg(s, RegisterType::A, r as u16),
            Some(r == 0),
            Some(false),
            Some(a % 16 + v % 16 >= 16),
            Some(a as int + v as int >= 256),
        )
    }
}

/// The carry flag as a number.
pub open spec fn carry_in(s: CpuView) -> int {
    if s.regs.cy() { 1 } else { 0 }
}

/// `ADC`: A + operand + Carry.
pub open spec fn adc_spec(s: CpuView) -> CpuView {
    let a = s.regs.a as int;
    let v = (s.fetched_data as u8) as int;
    let c = carry_in(s);
    let r = ((a + v + c) % 256) as u8;
    set_flags_spec(
        set_reg(s, RegisterType::A, r as u16),
        Some(r == 0),
        Some(false),
        Some(a % 16 + v % 16 + c >= 16),
        Some(a + v + c >= 256),
    )
}

/// `SUB`: A - operand; Half-carry and Carry on a borrow from bit 4 and bit 8.
pub open spec fn sub_spec(s: CpuView) -> CpuView {
    let a = s.regs.a;
    let v = s.fetched_data as u8;
    let r = a.wrapping_sub(v);
    set_flags_spec(set_reg(s, RegisterType::A, r as u16), Some(r == 0), Some(true), Some(a % 16 < v % 16), Some(a < v))
}

/// `SBC`: A - operand - Carry.
pub open spec fn sbc_spec(s: CpuView) -> CpuView {
    let a = s.regs.a as int;
    let v = (s.fetched_data as u8) as int;
    let c = carry_in(s);
    let r = ((a - v - c + 512) % 256) as u8;
    set_flags_spec(
        set_reg(s, RegisterType::A, r as u16),
        Some(r == 0),
        Some(true),
        Some(a % 16 < v % 16 + c),
        Some(a < v + c),
    )
}

/// `CP`: the flags of `SUB`, A unchanged.
pub open spec fn cp_spec(s: CpuView) -> CpuView {
    let a = s.regs.a;
    let v = s.fetched_data as u8;
    set_flags_spec(s, Some(a == v), Some(true), Some(a % 16 < v % 16), Some(a < v))
}

/// `AND`: Half-carry set, Subtract and Carry cleared.
pub open spec fn and_spec(s: CpuView) -> CpuView {
    let r = s.regs.a & (s.fetched_data as u8);
    set_flags_spec(set_reg(s, RegisterType::A, r as u16), Some(r == 0), Some(false), Some(true), Some(false))
}

/// `OR`: Subtract, Half-carry and Carry cleared.
pub open spec fn or_spec(s: CpuView) -> CpuView {
    let r = s.regs.a | (s.fetched_data as u8);
    set_flags_spec(set_reg(s, RegisterType::A, r as u16), Some(r == 0), Some(false), Some(false), Some(false))
}

/// `XOR`: Subtract, Half-carry and Carry cleared.
pub open spec fn xor_spec(s: CpuView) -> CpuView {
    let r = s.regs.a ^ (s.fetched_data as u8);
    set_flags_spec(set_reg(s, RegisterType::A, r as u16), Some(r == 0), Some(false), Some(false), Some(false))
}

impl Cpu {
    pub(crate) fn process_inc(&mut self)
        requires
            old(self).wf(),
        ensures
            final(self).wf(),
            final(self)@ == inc_spec(old(self)@),
    {
        let i = self.instruction;
        if i.addr_mode == AddressMode::Mr {
            let v = (self.fetched_data as u8).wrapping_add(1);
            self.bus.write(self.mem_dest, v);
            self.bus.cycles(1);
            self.set_flags(Some(v == 0), Some(false), Some(v % 16 == 0), None);
        } else if Self::is_16bit(i.reg1) {
            let v = self.read_register(i.reg1).wrapping_add(1);
            self.set_register(i.reg1, v);
            self.bus.cycles(1);
        } else {
            let v = (self.read_register(i.reg1) as u8).wrapping_add(1);
            self.set_register(i.reg1, v as u16);
            self.set_flags(Some(v == 0), Some(false), Some(v % 16 == 0), None);
        }
    }

    pub(crate) fn process_dec(&mut self)
        requires
            old(self).wf(),
        ensures
            final(self).wf(),
            final(self)@ == dec_spec(old(self)@),
    {
        let i = self.instruction;
        if i.addr_mode == AddressMode::Mr {
            let v = (self.fetched_data as u8).wrapping_sub(1);
            self.bus.write(self.mem_dest, v);
            self.bus.cycles(1);
            self.set_flags(Some(v == 0), Some(true), Some(v % 16 == 15), None);
        } else if Self::is_16bit(i.reg1) {
            let v = self.read_register(i.reg1).wrapping_sub(1);
            self.set_register(i.reg1, v);
            self.bus.cycles(1);
        } else {
            let v = (self.read_register(i.reg1) as u8).wrapping_sub(1);
            self.set_register(i.reg1, v as u16);
            self.set_flags(Some(v == 0), Some(true), Some(v % 16 == 15), None);
        }
    }

    pub(crate) fn process_add(&mut self)
        requires
            old(self).wf(),
        ensures
            final(self).wf(),
            final(self)@ == add_spec(old(self)@),
    {
        let i = self.instruction;
        if i.reg1 == RegisterType::Hl {
            let hl = self.read_register(RegisterType::Hl);
            let v = self.fetched_data;
            self.bus.cycles(1);
            self.set_register(RegisterType::Hl, hl.wrapping_add(v));
            let h = hl % 4096 + v % 4096 >= 4096;
            let c = hl as u32 + v as u32 >= 65536;
            self.set_flags(None, Some(false), Some(h), Some(c));
        } else if i.reg1 == RegisterType::Sp {
            let sp = self.registers.sp;
            let e = self.fetched_data as u8;
            self.bus.cycles(2);
            let v = if e < 128 { sp.wrapping_add(e as u16) } else { sp.wrapping_sub(256 - e as u16) };
            self.set_register(RegisterType::Sp, v);
            let h = sp % 16 + e as u16 % 16 >= 16;
            let c = sp % 256 + e as u16 >= 256;
            self.set_flags(Some(false), Some(false), Some(h), Some(c));
        } else {
            let a = self.registers.a;
            let v = self.fetched_data as u8;
            let r = a.wrapping_add(v);
            self.set_register(RegisterType::A, r as u16);
            self.set_flags(Some(r == 0), Some(false), Some(a % 16 + v % 16 >= 16), Some(a as u16 + v as u16 >= 256));
        }
    }

    pub(crate) fn process_adc(&mut self)
        requires
            old(self).wf(),
        ensures
            final(self).wf(),
            final(self)@ == adc_spec(old(self)@),
    {
        let a = self.registers.a as u16;
        let v = (self.fetched_data as u8) as u16;
        let c: u16 = if self.registers.flag_c() { 1 } else { 0 };
        let r = ((a + v + c) % 256) as u8;
        self.set_register(RegisterType::A, r as u16);
        self.set_flags(Some(r == 0), Some(false), Some(a % 16 + v % 16 + c >= 16), Some(a + v + c >= 256));
    }

    pub(crate) fn process_sub(&mut self)
        requires
            old(self).wf(),
        ensures
            final(self).wf(),
            final(self)@ == sub_spec(old(self)@),
    {
        let a = self.registers.a;
        let v = self.fetched_data as u8;
        let r = a.wrapping_sub(v);
        self.set_register(RegisterType::A, r as u16);
        self.set_flags(Some(r == 0), Some(true), Some(a % 16 < v % 16), Some(a < v));
    }

    pub(crate) fn process_sbc(&mut self)
        requires
            old(self).wf(),
        ensures
            final(self).wf(),
            final(self)@ == sbc_spec(old(self)@),
    {
        let a = self.registers.a as u16;
        let v = (self.fetched_data as u8) as u16;
        let c: u16 = if self.registers.flag_c() { 1 } else { 0 };
        let r = ((a + 512 - v - c) % 256) as u8;
        self.set_register(RegisterType::A, r as u16);
        self.set_flags(Some(r == 0), Some(true), Some(a % 16 < v % 16 + c), Some(a < v + c));
    }

    pub(crate) fn process_cp(&mut self)
        requires
            old(self).wf(),
        ensures
            final(self).wf(),
            final(self)@ == cp_spec(old(self)@),
    {
        let a = self.registers.a;
        let v = self.fetched_data as u8;
        self.set_flags(Some(a == v), Some(true), Some(a % 16 < v % 16), Some(a < v));
    }

    pub(crate) fn process_and(&mut self)
        requires
            old(self).wf(),
        ensures
            final(self).wf(),
            final(self)@ == and_spec(old(self)@),
    {
        let r = self.registers.a & (self.fetched_data as u8);
        self.set_register(RegisterType::A, r as u16);
        self.set_flags(Some(r == 0), Some(false), Some(true), Some(false));
    }

    pub(crate) fn process_or(&mut self)
        requires
            old(self).wf(),
        ensures
            final(self).wf(),
            final(self)@ == or_spec(old(self)@),
    {
        let r = self.registers.a | (self.fetched_data as u8);
        self.set_register(RegisterType::A, r as u16);
        self.set_flags(Some(r == 0), Some(false), Some(false), Some(false));
    }

    pub(crate) fn process_xor(&mut self)
        requires
            old(self).wf(),
        ensures
            final(self).wf(),
            final(self)@ == xor_spec(old(self)@),
    {
        let r = self.registers.a ^ (self.fetched_data as u8);
        self.set_register(RegisterType::A, r as u16);
        self.set_flags(Some(r == 0), Some(false), Some(false), Some(false));
    }
}

} // verus!
