use vstd::prelude::*;
use crate::common::{bit, bit_spec};
use crate::enums::RegisterType;

verus! {

/// The register file: eight 8-bit registers, the stack pointer and the program counter.
#[derive(Clone, Copy)]
pub struct Registers {
    pub a: u8,
    pub f: u8,
    pub b: u8,
    pub c: u8,
    pub d: u8,
    pub e: u8,
    pub h: u8,
    pub l: u8,
    pub pc: u16,
    pub sp: u16,
}

/// A 16-bit pair made of a high and a low byte.
pub open spec fn pair(hi: u8, lo: u8) -> u16 {
    (hi as int * 256 + lo as int) as u16
}

/// Whether a register identifier names a 16-bit register.
pub open spec fn is_16bit_spec(t: RegisterType) -> bool {
    t == RegisterType::Af || t == RegisterType::Bc || t == RegisterType::De || t == RegisterType::Hl
        || t == RegisterType::Sp || t == RegisterType::Pc
}

/// Whether a register identifier names one of the eight 8-bit registers.
pub open spec fn is_8bit_spec(t: RegisterType) -> bool {
    t == RegisterType::A || t == RegisterType::F || t == RegisterType::B || t == RegisterType::C
        || t == RegisterType::D || t == RegisterType::E || t == RegisterType::H || t == RegisterType::L
}

impl Registers {
    /// The Zero flag (bit 7 of F).
    pub open spec fn z(self) -> bool {
        bit_spec(self.f, 7)
    }

    /// The Subtract flag (bit 6 of F).
    pub open spec fn n(self) -> bool {
        bit_spec(self.f, 6)
    }

    /// The Half-carry flag (bit 5 of F).
    pub open spec fn hc(self) -> bool {
        bit_spec(self.f, 5)
    }

    /// The Carry flag (bit 4 of F).
    pub open spec fn cy(self) -> bool {
        bit_spec(self.f, 4)
    }

    /// Value of a register or pair; `Unset` reads as zero.
    pub open spec fn read_spec(self, t: RegisterType) -> u16 {
        match t {
            RegisterType::A => self.a as u16,
            RegisterType::F => self.f as u16,
            RegisterType::B => self.b as u16,
            RegisterType::C => self.c as u16,
            RegisterType::D => self.d as u16,
            RegisterType::E => self.e as u16,
            RegisterType::H => self.h as u16,
            RegisterType::L => self.l as u16,
            RegisterType::Af => pair(self.a, self.f),
            RegisterType::Bc => pair(self.b, self.c),
            RegisterType::De => pair(self.d, self.e),
            RegisterType::Hl => pair(self.h, self.l),
            RegisterType::Sp => self.sp,
            RegisterType::Pc => self.pc,
            RegisterType::Unset => 0,
        }
    }

    /// The register file after writing `v` to a register or pair. An 8-bit register takes
    /// the low byte; writing AF clears the low nibble of F; writing `Unset` changes nothing.
    pub open spec fn write_spec(self, t: RegisterType, v: u16) -> Registers {
        let hi = (v as int / 256) as u8;
        let lo = (v as int % 256) as u8;
        match t {
            RegisterType::A => Registers { a: lo, ..self },
            RegisterType::F => Registers { f: lo, ..self },
            RegisterType::B => Registers { b: lo, ..self },
            RegisterType::C => Registers { c: lo, ..self },
            RegisterType::D => Registers { d: lo, ..self },
            RegisterType::E => Registers { e: lo, ..self },
            RegisterType::H => Registers { h: lo, ..self },
            RegisterType::L => Registers { l: lo, ..self },
            RegisterType::Af => Registers { a: hi, f: (lo as int / 16 * 16) as u8, ..self },
            RegisterType::Bc => Registers { b: hi, c: lo, ..self },
            RegisterType::De => Registers { d: hi, e: lo, ..self },
            RegisterType::Hl => Registers { h: hi, l: lo, ..self },
            RegisterType::Sp => Registers { sp: v, ..self },
            RegisterType::Pc => Registers { pc: v, ..self },
            RegisterType::Unset => self,
        }
    }

    /// All registers zero.
    pub fn new() -> (r: Self)
        ensures
            r.a == 0 && r.f == 0 && r.b == 0 && r.c == 0 && r.d == 0 && r.e == 0 && r.h == 0
                && r.l == 0 && r.pc == 0 && r.sp == 0,
    {
        Self { a: 0, f: 0, b: 0, c: 0, d: 0, e: 0, h: 0, l: 0, pc: 0, sp: 0 }
    }

    pub fn flag_z(&self) -> (r: bool)
        ensures
            r == self.z(),
    {
        bit(self.f, 7)
    }

    pub fn flag_n(&self) -> (r: bool)
        ensures
            r == self.n(),
    {
        bit(self.f, 6)
    }

    pub fn flag_h(&self) -> (r: bool)
        ensures
            r == self.hc(),
    {
        bit(self.f, 5)
    }

    pub fn flag_c(&self) -> (r: bool)
        ensures
            r == self.cy(),
    {
        bit(self.f, 4)
    }
}

} // verus!
