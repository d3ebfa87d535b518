use vstd::prelude::*;
use crate::common::{bit, bit_spec, set_bit, set_bit_spec};
use crate::cpu::{Cpu, CpuView, tick, set_reg, set_flags_spec, r8_read, r8_write};
use crate::enums::RegisterType;
use crate::instruction::r8_spec;

verus! {

/// A rotate or shift of the prefixed group, selected by `kind`: RLC, RRC, RL, RR, SLA, SRA,
/// SWAP, SRL. Returns the result and the new Carry.
pub open spec fn shift_spec(kind: u8, v: u8, carry: bool) -> (u8, bool) {
    let cin: int = if carry { 1 } else { 0 };
    let x = v as int;
    if kind == 0 {
        (((x % 128) * 2 + x / 128) as u8, x >= 128)
    } else if kind == 1 {
        ((x / 2 + (x % 2) * 128) as u8, x % 2 == 1)
    } else if kind == 2 {
        (((x % 128) * 2 + cin) as u8, x >= 128)
    } else if kind == 3 {
        ((x / 2 + cin * 128) as u8, x % 2 == 1)
    } else if kind == 4 {
        (((x % 128) * 2) as u8, x >= 128)
    } else if kind == 5 {
        ((x / 2 + (x / 128) * 128) as u8, x % 2 == 1)
    } else if kind == 6 {
        (((x % 16) * 16 + x / 16) as u8, false)
    } else {
        ((x / 2) as u8, x % 2 == 1)
    }
}

/// The prefixed group: the operand byte selects the register (`op & 7`), the bit or the
/// rotate (`(op >> 3) & 7`) and the group (`op >> 6`): rotates and shifts, `BIT`, `RES`,
/// `SET`. Memory at HL costs one M-cycle to test and two to change.
pub open spec fn cb_spec(s: CpuView) -> CpuView {
    let op = s.fetched_data as u8;
    let reg = r8_spec((op % 8) as int);
    let b = ((op / 8) % 8) as u8;
    let g = op / 64;
    let val = r8_read(s, reg);
    let hl = reg == RegisterType::Hl;
    if g == 1 {
        set_flags_spec(if hl { tick(s, 1) } else { s }, Some(!bit_spec(val, b)), Some(false), Some(true), None)
    } else if g == 2 || g == 3 {
        let s1 = r8_write(s, reg, set_bit_spec(val, b, g == 3));
        if hl { tick(s1, 2) } else { s1 }
    } else {
        let (r, c) = shift_spec(b, val, s.regs.cy());
        let s1 = r8_write(s, reg, r);
        let s2 = if hl { tick(s1, 2) } else { s1 };
        set_flags_spec(s2, Some(r == 0), Some(false), Some(false), Some(c))
    }
}

/// The accumulator rotates `RLCA`, `RRCA`, `RLA`, `RRA` (kinds 0 to 3 of `shift_spec`):
/// Zero, Subtract and Half-carry cleared.
pub open spec fn rot_a_spec(s: CpuView, kind: u8) -> CpuView {
    let (r, c) = shift_spec(kind, s.regs.a, s.regs.cy());
    set_flags_spec(set_reg(s, RegisterType::A, r as u16), Some(false), Some(false), Some(false), Some(c))
}

/// `DAA`: decimal correction of A after an addition or a subtraction.
pub open spec fn daa_spec(s: CpuView) -> CpuView {
    let a = s.regs.a;
    let n = s.regs.n();
    let low: u8 = if s.regs.hc() || (!n && a % 16 > 9) { 6 } else { 0 };
    let fc = s.regs.cy() || (!n && a > 0x99);
    let u: u8 = if fc { (low + 0x60) as u8 } else { low };
    let r = if n { a.wrapping_sub(u) } else { a.wrapping_add(u) };
    set_flags_spec(set_reg(s, RegisterType::A, r as u16), Some(r == 0), None, Some(false), Some(fc))
}

/// `CPL`: A complemented, Subtract and Half-carry set.
pub open spec fn cpl_spec(s: CpuView) -> CpuView {
    set_flags_spec(set_reg(s, RegisterType::A, (!s.regs.a) as u16), None, Some(true), Some(true), None)
}

/// `SCF`: Carry set, Subtract and Half-carry cleared.
pub open spec fn scf_spec(s: CpuView) -> CpuView {
    set_flags_spec(s, None, Some(false), Some(false), Some(true))
}

/// `CCF`: Carry toggled, Subtract and Half-carry cleared.
pub open spec fn ccf_spec(s: CpuView) -> CpuView {
    set_flags_spec(s, None, Some(false), Some(false), Some(!s.regs.cy()))
}

/// Computes `shift_spec`.
fn shift(kind: u8, v: u8, carry: bool) -> (r: (u8, bool))
    ensures
        r == shift_spec(kind, v, carry),
{
    let cin: u8 = if carry { 1 } else { 0 };
    if kind == 0 {
        ((v % 128) * 2 + v / 128, v >= 128)
    } else if kind == 1 {
        (v / 2 + (v % 2) * 128, v % 2 == 1)
    } else if kind == 2 {
        ((v % 128) * 2 + cin, v >= 128)
    } else if kind == 3 {
        (v / 2 + cin * 128, v % 2 == 1)
    } else if kind == 4 {
        ((v % 128) * 2, v >= 128)
    } else if kind == 5 {
        (v / 2 + (v / 128) * 128, v % 2 == 1)
    } else if kind == 6 {
        ((v % 16) * 16 + v / 16, false)
    } else {
        (v / 2, v % 2 == 1)
    }
}

impl Cpu {
    /// The operand register of a prefixed opcode's low three bits.
    fn decode_reg(reg: u8) -> (r: RegisterType)
        requires
            reg < 8,
        ensures
            r == r8_spec(reg as int),
    {
        Self::register_lookup(reg as usize)
    }

    fn register_lookup(index: usize) -> (r: RegisterType)
        requires
            index < 8,
        ensures
            r == r8_spec(index as int),
    {
        let registers: [RegisterType; 8] = [
            RegisterType::B,
            RegisterType::C,
            RegisterType::D,
            RegisterType::E,
            RegisterType::H,
            RegisterType::L,
            RegisterType::Hl,
            RegisterType::A,
        ];
        registers[index]
    }

    pub(crate) fn process_cb(&mut self)
        requires
            old(self).wf(),
        ensures
            final(self).wf(),
            final(self)@ == cb_spec(old(self)@),
    {
        let op = self.fetched_data as u8;
        let reg = Self::decode_reg(op % 8);
        let b = (op / 8) % 8;
        let g = op / 64;
        let val = self.read_register_8bits(reg);
        let hl = reg == RegisterType::Hl;
        if g == 1 {
            if hl {
                self.bus.cycles(1);
            }
            let t = bit(val, b);
            self.set_flags(Some(!t), Some(false), Some(true), None);
        } else if g == 2 || g == 3 {
            let r = set_bit(val, b, g == 3);
            self.set_register_8bits(reg, r);
            if hl {
                self.bus.cycles(2);
            }
        } else {
            let c = self.registers.flag_c();
            let (r, co) = shift(b, val, c);
            self.set_register_8bits(reg, r);
            if hl {
                self.bus.cycles(2);
            }
            self.set_flags(Some(r == 0), Some(false), Some(false), Some(co));
        }
    }

    fn rotate_a(&mut self, kind: u8)
        requires
            old(self).wf(),
        ensures
            final(self).wf(),
            final(self)@ == rot_a_spec(old(self)@, kind),
    {
        let c = self.registers.flag_c();
        let (r, co) = shift(kind, self.registers.a, c);
        self.set_register(RegisterType::A, r as u16);
        self.set_flags(Some(false), Some(false), Some(false), Some(co));
    }

    pub(crate) fn process_rlca(&mut self)
        requires
            old(self).wf(),
        ensures
            final(self).wf(),
            final(self)@ == rot_a_spec(old(self)@, 0),
    {
        self.rotate_a(0);
    }

    pub(crate) fn process_rrca(&mut self)
        requires
            old(self).wf(),
        ensures
            final(self).wf(),
            final(self)@ == rot_a_spec(old(self)@, 1),
    {
        self.rotate_a(1);
    }

    pub(crate) fn process_rla(&mut self)
        requires
            old(self).wf(),
        ensures
            final(self).wf(),
            final(self)@ == rot_a_spec(old(self)@, 2),
    {
        self.rotate_a(2);
    }

    pub(crate) fn process_rra(&mut self)
        requires
            old(self).wf(),
        ensures
            final(self).wf(),
            final(self)@ == rot_a_spec(old(self)@, 3),
    {
        self.rotate_a(3);
    }

    pub(crate) fn process_daa(&mut self)
        requires
            old(self).wf(),
        ensures
            final(self).wf(),
            final(self)@ == daa_spec(old(self)@),
    {
        let a = self.registers.a;
        let n = self.registers.flag_n();
        let low: u8 = if self.registers.flag_h() || (!n && a % 16 > 9) { 6 } else { 0 };
        let fc = self.registers.flag_c() || (!n && a > 0x99);
        let u: u8 = if fc { low + 0x60 } else { low };
        let r = if n { a.wrapping_sub(u) } else { a.wrapping_add(u) };
        self.set_register(RegisterType::A, r as u16);
        self.set_flags(Some(r == 0), None, Some(false), Some(fc));
    }

    pub(crate) fn process_cpl(&mut self)
        requires
            old(self).wf(),
        ensures
            final(self).wf(),
            final(self)@ == cpl_spec(old(self)@),
    {
        let a = !self.registers.a;
        self.set_register(RegisterType::A, a as u16);
        self.set_flags(None, Some(true), Some(true), None);
    }

    pub(crate) fn process_csf(&mut self)
        requires
            old(self).wf(),
        ensures
            final(self).wf(),
            final(self)@ == scf_spec(old(self)@),
    {
        self.set_flags(None, Some(false), Some(false), Some(true));
    }

    pub(crate) fn process_ccf(&mut self)
        requires
            old(self).wf(),
        ensures
            final(self).wf(),
            final(self)@ == ccf_spec(old(self)@),
    {
        let c = self.registers.flag_c();
        self.set_flags(None, Some(false), Some(false), Some(!c));
    }
}

} // verus!
