use vstd::prelude::*;
use crate::bus::{Bus, BusView, read_spec, write_spec, cycles_spec};
use crate::cart::Cart;
use crate::common::{set_bit, set_bit_spec};
use crate::enums::{AddressMode, ConditionType, InstructionType, RegisterType};
use crate::instruction::Instruction;
use crate::registers::{Registers, is_8bit_spec};

verus! {

/// The execution engine: registers, the per-instruction execution state, the interrupt
/// state, and the bus it owns.
pub struct Cpu {
    pub registers: Registers,
    /// Operand resolved for the current instruction.
    pub fetched_data: u16,
    /// Memory destination resolved for the current instruction.
    pub mem_dest: u16,
    /// Whether the current instruction's destination is memory.
    pub dest_is_mem: bool,
    pub opcode: u8,
    pub instruction: Instruction,
    pub halted: bool,
    /// Master interrupt enable.
    pub int_master_enabled: bool,
    /// Set by `EI`: master enable turns on once the following instruction completes.
    pub enabling_ime: bool,
    pub bus: Bus,
}

/// The engine as mathematical values.
pub struct CpuView {
    pub regs: Registers,
    pub fetched_data: u16,
    pub mem_dest: u16,
    pub dest_is_mem: bool,
    pub opcode: u8,
    pub instruction: Instruction,
    pub halted: bool,
    pub ime: bool,
    pub enabling_ime: bool,
    pub bus: BusView,
}

impl View for Cpu {
    type V = CpuView;

    open spec fn view(&self) -> CpuView {
        CpuView {
            regs: self.registers,
            fetched_data: self.fetched_data,
            mem_dest: self.mem_dest,
            dest_is_mem: self.dest_is_mem,
            opcode: self.opcode,
            instruction: self.instruction,
            halted: self.halted,
            ime: self.int_master_enabled,
            enabling_ime: self.enabling_ime,
            bus: self.bus@,
        }
    }
}

/// A fatal condition met while executing: an undefined opcode or an unsupported operation.
#[derive(Debug, Clone, Copy)]
pub struct CpuFault {
    /// Address of the faulting instruction.
    pub pc: u16,
    pub opcode: u8,
    pub kind: InstructionType,
}

/// Operands that `read_register_8bits` and `set_register_8bits` accept: the 8-bit registers
/// and memory at HL.
pub open spec fn is_r8_operand(t: RegisterType) -> bool {
    is_8bit_spec(t) || t == RegisterType::Hl
}

/// A flag byte with each given flag forced and the others kept.
pub open spec fn opt_set(v: u8, n: u8, o: Option<bool>) -> u8 {
    match o {
        Some(b) => set_bit_spec(v, n, b),
        None => v,
    }
}

/// F after a flag update of Zero, Subtract, Half-carry and Carry.
pub open spec fn flags_spec(f: u8, z: Option<bool>, n: Option<bool>, h: Option<bool>, c: Option<bool>) -> u8 {
    opt_set(opt_set(opt_set(opt_set(f, 7, z), 6, n), 5, h), 4, c)
}

/// The state after `n` M-cycles.
pub open spec fn tick(s: CpuView, n: nat) -> CpuView {
    CpuView { bus: cycles_spec(s.bus, n), ..s }
}

/// The state with register (or pair) `t` set to `v`.
pub open spec fn set_reg(s: CpuView, t: RegisterType, v: u16) -> CpuView {
    CpuView { regs: s.regs.write_spec(t, v), ..s }
}

/// The state after a flag update.
pub open spec fn set_flags_spec(
    s: CpuView,
    z: Option<bool>,
    n: Option<bool>,
    h: Option<bool>,
    c: Option<bool>,
) -> CpuView {
    CpuView { regs: Registers { f: flags_spec(s.regs.f, z, n, h, c), ..s.regs }, ..s }
}

/// The state after a bus write.
pub open spec fn mem_write(s: CpuView, a: u16, v: u8) -> CpuView {
    CpuView { bus: write_spec(s.bus, a, v), ..s }
}

/// Value of an 8-bit operand: a register, or memory at HL.
pub open spec fn r8_read(s: CpuView, t: RegisterType) -> u8 {
    if t == RegisterType::Hl {
        read_spec(s.bus, s.regs.read_spec(RegisterType::Hl))
    } else {
        s.regs.read_spec(t) as u8
    }
}

/// The state after writing an 8-bit operand: a register, or memory at HL.
pub open spec fn r8_write(s: CpuView, t: RegisterType, v: u8) -> CpuView {
    if t == RegisterType::Hl {
        mem_write(s, s.regs.read_spec(RegisterType::Hl), v)
    } else {
        set_reg(s, t, v as u16)
    }
}

/// The state with the program counter advanced by `k`.
pub open spec fn adv_pc(s: CpuView, k: u16) -> CpuView {
    CpuView { regs: Registers { pc: s.regs.pc.wrapping_add(k), ..s.regs }, ..s }
}

/// The operand address of a register used as a pointer: C points into the high page.
pub open spec fn pointer(s: CpuView, t: RegisterType) -> u16 {
    if t == RegisterType::C {
        s.regs.read_spec(t) | 0xFF00
    } else {
        s.regs.read_spec(t)
    }
}

/// Little-endian immediate word at PC, read one byte per M-cycle.
pub open spec fn imm16(s: CpuView) -> u16 {
    let lo = read_spec(s.bus, s.regs.pc);
    let hi = read_spec(cycles_spec(s.bus, 1), s.regs.pc.wrapping_add(1));
    (lo as int + 256 * hi as int) as u16
}

/// Operand resolution: the execution state after resolving the current instruction's
/// operand and destination, with one M-cycle for each memory access.
#[verifier::opaque]
pub open spec fn fetch_spec(s0: CpuView) -> CpuView {
    let s = CpuView { mem_dest: 0, dest_is_mem: false, ..s0 };
    let i = s.instruction;
    let pc = s.regs.pc;
    let hl = s.regs.read_spec(RegisterType::Hl);
    match i.addr_mode {
        AddressMode::Imp => s,
        AddressMode::R => CpuView { fetched_data: s.regs.read_spec(i.reg1), ..s },
        AddressMode::Rr => CpuView { fetched_data: s.regs.read_spec(i.reg2), ..s },
        AddressMode::Rd8 | AddressMode::Ra8 | AddressMode::HlSpR | AddressMode::D8 => adv_pc(
            tick(CpuView { fetched_data: read_spec(s.bus, pc) as u16, ..s }, 1),
            1,
        ),
        AddressMode::Rd16 | AddressMode::D16 => adv_pc(
            tick(CpuView { fetched_data: imm16(s), ..s }, 2),
            2,
        ),
        AddressMode::MrR => CpuView {
            fetched_data: s.regs.read_spec(i.reg2),
            mem_dest: pointer(s, i.reg1),
            dest_is_mem: true,
            ..s
        },
        AddressMode::RmR => tick(
            CpuView { fetched_data: read_spec(s.bus, pointer(s, i.reg2)) as u16, ..s },
            1,
        ),
        AddressMode::Rhli => set_reg(
            tick(CpuView { fetched_data: read_spec(s.bus, s.regs.read_spec(i.reg2)) as u16, ..s }, 1),
            RegisterType::Hl,
            hl.wrapping_add(1),
        ),
        AddressMode::Rhld => set_reg(
            tick(CpuView { fetched_data: read_spec(s.bus, s.regs.read_spec(i.reg2)) as u16, ..s }, 1),
            RegisterType::Hl,
            hl.wrapping_sub(1),
        ),
        AddressMode::HliR => set_reg(
            CpuView {
                fetched_data: s.regs.read_spec(i.reg2),
                mem_dest: s.regs.read_spec(i.reg1),
                dest_is_mem: true,
                ..s
            },
            RegisterType::Hl,
            hl.wrapping_add(1),
        ),
        AddressMode::HldR => set_reg(
            CpuView {
                fetched_data: s.regs.read_spec(i.reg2),
                mem_dest: s.regs.read_spec(i.reg1),
                dest_is_mem: true,
                ..s
            },
            RegisterType::Hl,
            hl.wrapping_sub(1),
        ),
        AddressMode::A8R => adv_pc(
            tick(
                CpuView { mem_dest: (read_spec(s.bus, pc) as u16) | 0xFF00, dest_is_mem: true, ..s },
                1,
            ),
            1,
        ),
        AddressMode::A16R | AddressMode::D16R => adv_pc(
            tick(
                CpuView {
                    mem_dest: imm16(s),
                    dest_is_mem: true,
                    fetched_data: s.regs.read_spec(i.reg2),
                    ..s
                },
                2,
            ),
            2,
        ),
        AddressMode::MrD8 => adv_pc(
            tick(
                CpuView {
                    fetched_data: read_spec(s.bus, pc) as u16,
                    mem_dest: s.regs.read_spec(i.reg1),
                    dest_is_mem: true,
                    ..s
                },
                1,
            ),
            1,
        ),
        AddressMode::Mr => tick(
            CpuView {
                mem_dest: s.regs.read_spec(i.reg1),
                dest_is_mem: true,
                fetched_data: read_spec(s.bus, s.regs.read_spec(i.reg1)) as u16,
                ..s
            },
            1,
        ),
        AddressMode::Ra16 => {
            let a = imm16(s);
            let s2 = adv_pc(tick(s, 2), 2);
            tick(CpuView { fetched_data: read_spec(s2.bus, a) as u16, ..s2 }, 1)
        },
    }
}

/// The power-on register values.
pub open spec fn power_on_registers(r: Registers) -> bool {
    r.pc == 0x0100 && r.sp == 0xFFFE && r.a == 0x01 && r.f == 0xB0 && r.b == 0x00 && r.c == 0x13
        && r.d == 0x00 && r.e == 0xD8 && r.h == 0x01 && r.l == 0x4D
}

impl Cpu {
    pub open spec fn wf(&self) -> bool {
        self.bus.wf()
    }

    /// An engine at its power-on state over `cart`: the documented register values, master
    /// enable on, the divider seeded with 0xABCC.
    pub fn new(cart: Cart) -> (r: Self)
        requires
            cart.ram@.len() == 0x2000,
        ensures
            r.wf(),
            power_on_registers(r.registers),
            r.int_master_enabled,
            !r.enabling_ime,
            !r.halted,
            r.bus@.rom == cart.rom@,
            r.bus@.int_flags == 0,
            r.bus@.ie == 0,
            r.bus@.timer.div == 0xABCC,
            !r.bus@.dma.active,
    {
        let mut bus = Bus::new(cart);
        bus.timer.div = 0xABCC;
        Cpu {
            registers: Registers { a: 0x01, f: 0xB0, b: 0x00, c: 0x13, d: 0x00, e: 0xD8, h: 0x01, l: 0x4D, pc: 0x0100, sp: 0xFFFE },
            fetched_data: 0,
            mem_dest: 0,
            dest_is_mem: false,
            opcode: 0,
            instruction: Instruction {
                ins_type: InstructionType::Unset,
                addr_mode: AddressMode::Imp,
                reg1: RegisterType::Unset,
                reg2: RegisterType::Unset,
                cond_type: ConditionType::Always,
                param: None,
            },
            halted: false,
            int_master_enabled: true,
            enabling_ime: false,
            bus,
        }
    }

    /// Value of a register or pair (`Unset` reads as zero).
    pub fn read_register(&self, reg_type: RegisterType) -> (r: u16)
        ensures
            r == self.registers.read_spec(reg_type),
    {
        let rg = &self.registers;
        match reg_type {
            RegisterType::A => rg.a as u16,
            RegisterType::F => rg.f as u16,
            RegisterType::B => rg.b as u16,
            RegisterType::C => rg.c as u16,
            RegisterType::D => rg.d as u16,
            RegisterType::E => rg.e as u16,
            RegisterType::H => rg.h as u16,
            RegisterType::L => rg.l as u16,
            RegisterType::Af => rg.a as u16 * 256 + rg.f as u16,
            RegisterType::Bc => rg.b as u16 * 256 + rg.c as u16,
            RegisterType::De => rg.d as u16 * 256 + rg.e as u16,
            RegisterType::Hl => rg.h as u16 * 256 + rg.l as u16,
            RegisterType::Sp => rg.sp,
            RegisterType::Pc => rg.pc,
            RegisterType::Unset => 0,
        }
    }

    /// Value of an 8-bit operand: one of the eight registers, or the byte at HL.
    pub fn read_register_8bits(&self, reg_type: RegisterType) -> (r: u8)
        requires
            self.wf(),
            is_r8_operand(reg_type),
        ensures
            r == r8_read(self@, reg_type),
    {
        match reg_type {
            RegisterType::A => self.registers.a,
            RegisterType::F => self.registers.f,
            RegisterType::B => self.registers.b,
            RegisterType::C => self.registers.c,
            RegisterType::D => self.registers.d,
            RegisterType::E => self.registers.e,
            RegisterType::H => self.registers.h,
            RegisterType::L => self.registers.l,
            _ => self.bus.read(self.read_register(RegisterType::Hl)),
        }
    }

    /// Writes a register or pair; an 8-bit register takes the low byte, and writing AF
    /// clears the low nibble of F.
    pub fn set_register(&mut self, reg_type: RegisterType, data: u16)
        ensures
            *final(self) == (Cpu { registers: old(self).registers.write_spec(reg_type, data), ..*old(self) }),
            final(self)@ == set_reg(old(self)@, reg_type, data),
    {
        let hi = (data / 256) as u8;
        let lo = (data % 256) as u8;
        match reg_type {
            RegisterType::A => self.registers.a = lo,
            RegisterType::F => self.registers.f = lo,
            RegisterType::B => self.registers.b = lo,
            RegisterType::C => self.registers.c = lo,
            RegisterType::D => self.registers.d = lo,
            RegisterType::E => self.registers.e = lo,
            RegisterType::H => self.registers.h = lo,
            RegisterType::L => self.registers.l = lo,
            RegisterType::Af => {
                self.registers.a = hi;
                self.registers.f = lo / 16 * 16;
            },
            RegisterType::Bc => {
                self.registers.b = hi;
                self.registers.c = lo;
            },
            RegisterType::De => {
                self.registers.d = hi;
                self.registers.e = lo;
            },
            RegisterType::Hl => {
                self.registers.h = hi;
                self.registers.l = lo;
            },
            RegisterType::Sp => self.registers.sp = data,
            RegisterType::Pc => self.registers.pc = data,
            RegisterType::Unset => {},
        }
    }

    /// Writes an 8-bit operand: one of the eight registers, or the byte at HL.
    pub fn set_register_8bits(&mut self, reg_type: RegisterType, data: u8)
        requires
            old(self).wf(),
            is_r8_operand(reg_type),
        ensures
            final(self).wf(),
            final(self)@ == r8_write(old(self)@, reg_type, data),
    {
        if reg_type == RegisterType::Hl {
            let a = self.read_register(RegisterType::Hl);
            self.bus.write(a, data);
        } else {
            self.set_register(reg_type, data as u16);
        }
    }

    /// Forces each given flag and leaves the others.
    pub fn set_flags(&mut self, z: Option<bool>, n: Option<bool>, h: Option<bool>, c: Option<bool>)
        ensures
            final(self)@ == set_flags_spec(old(self)@, z, n, h, c),
            final(self).bus == old(self).bus,
    {
        let mut f = self.registers.f;
        if let Some(b) = z {
            f = set_bit(f, 7, b);
        }
        if let Some(b) = n {
            f = set_bit(f, 6, b);
        }
        if let Some(b) = h {
            f = set_bit(f, 5, b);
        }
        if let Some(b) = c {
            f = set_bit(f, 4, b);
        }
        self.registers.f = f;
    }
}

} // verus!
