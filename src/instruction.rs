use vstd::prelude::*;
use crate::enums::{AddressMode, ConditionType, InstructionType, RegisterType};

verus! {

/// An immutable instruction descriptor.
#[derive(Clone, Copy)]
pub struct Instruction {
    pub ins_type: InstructionType,
    pub addr_mode: AddressMode,
    pub reg1: RegisterType,
    pub reg2: RegisterType,
    pub cond_type: ConditionType,
    /// Target of a fixed-address call; present only for `Rst`.
    pub param: Option<u8>,
}

/// The 8-bit operand encoded by a 3-bit register field; index 6 stands for memory at HL.
pub open spec fn r8_spec(i: int) -> RegisterType {
    if i == 0 {
        RegisterType::B
    } else if i == 1 {
        RegisterType::C
    } else if i == 2 {
        RegisterType::D
    } else if i == 3 {
        RegisterType::E
    } else if i == 4 {
        RegisterType::H
    } else if i == 5 {
        RegisterType::L
    } else if i == 6 {
        RegisterType::Hl
    } else {
        RegisterType::A
    }
}

/// The pair encoded by a 2-bit field of the arithmetic and load group.
pub open spec fn rp_spec(p: int) -> RegisterType {
    if p == 0 {
        RegisterType::Bc
    } else if p == 1 {
        RegisterType::De
    } else if p == 2 {
        RegisterType::Hl
    } else {
        RegisterType::Sp
    }
}

/// The pair encoded by a 2-bit field of the stack group.
pub open spec fn rp2_spec(p: int) -> RegisterType {
    if p == 0 {
        RegisterType::Bc
    } else if p == 1 {
        RegisterType::De
    } else if p == 2 {
        RegisterType::Hl
    } else {
        RegisterType::Af
    }
}

/// The condition encoded by a 2-bit field.
pub open spec fn cc_spec(i: int) -> ConditionType {
    if i == 0 {
        ConditionType::Nz
    } else if i == 1 {
        ConditionType::Z
    } else if i == 2 {
        ConditionType::Nc
    } else {
        ConditionType::C
    }
}

/// The accumulator operation encoded by a 3-bit field.
pub open spec fn alu_spec(i: int) -> InstructionType {
    if i == 0 {
        InstructionType::Add
    } else if i == 1 {
        InstructionType::Adc
    } else if i == 2 {
        InstructionType::Sub
    } else if i == 3 {
        InstructionType::Sbc
    } else if i == 4 {
        InstructionType::And
    } else if i == 5 {
        InstructionType::Xor
    } else if i == 6 {
        InstructionType::Or
    } else {
        InstructionType::Cp
    }
}

/// The accumulator rotate or flag operation encoded by a 3-bit field.
pub open spec fn misc_spec(i: int) -> InstructionType {
    if i == 0 {
        InstructionType::Rlca
    } else if i == 1 {
        InstructionType::Rrca
    } else if i == 2 {
        InstructionType::Rla
    } else if i == 3 {
        InstructionType::Rra
    } else if i == 4 {
        InstructionType::Daa
    } else if i == 5 {
        InstructionType::Cpl
    } else if i == 6 {
        InstructionType::Scf
    } else {
        InstructionType::Ccf
    }
}

/// The opcodes with no architectural meaning.
pub open spec fn is_undefined_opcode(op: u8) -> bool {
    op == 0xD3 || op == 0xDB || op == 0xDD || op == 0xE3 || op == 0xE4 || op == 0xEB || op == 0xEC
        || op == 0xED || op == 0xF4 || op == 0xFC || op == 0xFD
}

/// Descriptor with an operation kind and nothing else.
pub open spec fn plain(t: InstructionType) -> Instruction {
    Instruction {
        ins_type: t,
        addr_mode: AddressMode::Imp,
        reg1: RegisterType::Unset,
        reg2: RegisterType::Unset,
        cond_type: ConditionType::Always,
        param: None,
    }
}


/// Descriptor with the given fields and no literal parameter.
pub open spec fn mk(
    t: InstructionType,
    m: AddressMode,
    r1: RegisterType,
    r2: RegisterType,
    c: ConditionType,
) -> Instruction {
    Instruction { ins_type: t, addr_mode: m, reg1: r1, reg2: r2, cond_type: c, param: None }
}

/// The instruction table of the main opcode space, by the fields `x = op[7:6]`,
/// `y = op[5:3]`, `z = op[2:0]`, `p = y >> 1`, `q = y & 1`.
pub open spec fn decode_spec(opcode: u8) -> Instruction {
    let x: u8 = opcode / 64;
    let y: u8 = (opcode / 8) % 8;
    let z: u8 = opcode % 8;
    let p: u8 = y / 2;
    let q: u8 = y % 2;
    let al = ConditionType::Always;
    let un = RegisterType::Unset;
    if x == 1 {
        if opcode == 0x76 {
            mk(InstructionType::Halt, AddressMode::Imp, un, un, al)
        } else {
            let mode = if y == 6 {
                AddressMode::MrR
            } else if z == 6 {
                AddressMode::RmR
            } else {
                AddressMode::Rr
            };
            mk(InstructionType::Ld, mode, r8_spec((y) as int), r8_spec((z) as int), al)
        }
    } else if x == 2 {
        let mode = if z == 6 { AddressMode::RmR } else { AddressMode::Rr };
        mk(alu_spec((y) as int), mode, RegisterType::A, r8_spec((z) as int), al)
    } else if x == 0 {
        if z == 0 {
            if y == 0 {
                mk(InstructionType::Nop, AddressMode::Imp, un, un, al)
            } else if y == 1 {
                mk(InstructionType::Ld, AddressMode::A16R, un, RegisterType::Sp, al)
            } else if y == 2 {
                mk(InstructionType::Stop, AddressMode::Imp, un, un, al)
            } else if y == 3 {
                mk(InstructionType::Jr, AddressMode::D8, un, un, al)
            } else {
                mk(InstructionType::Jr, AddressMode::D8, un, un, cc_spec((y - 4) as int))
            }
        } else if z == 1 {
            if q == 0 {
                mk(InstructionType::Ld, AddressMode::Rd16, rp_spec((p) as int), un, al)
            } else {
                mk(InstructionType::Add, AddressMode::Rr, RegisterType::Hl, rp_spec((p) as int), al)
            }
        } else if z == 2 {
            if q == 0 {
                if p == 0 {
                    mk(InstructionType::Ld, AddressMode::MrR, RegisterType::Bc, RegisterType::A, al)
                } else if p == 1 {
                    mk(InstructionType::Ld, AddressMode::MrR, RegisterType::De, RegisterType::A, al)
                } else if p == 2 {
                    mk(InstructionType::Ld, AddressMode::HliR, RegisterType::Hl, RegisterType::A, al)
                } else {
                    mk(InstructionType::Ld, AddressMode::HldR, RegisterType::Hl, RegisterType::A, al)
                }
            } else {
                if p == 0 {
                    mk(InstructionType::Ld, AddressMode::RmR, RegisterType::A, RegisterType::Bc, al)
                } else if p == 1 {
                    mk(InstructionType::Ld, AddressMode::RmR, RegisterType::A, RegisterType::De, al)
                } else if p == 2 {
                    mk(InstructionType::Ld, AddressMode::Rhli, RegisterType::A, RegisterType::Hl, al)
                } else {
                    mk(InstructionType::Ld, AddressMode::Rhld, RegisterType::A, RegisterType::Hl, al)
                }
            }
        } else if z == 3 {
            let t = if q == 0 { InstructionType::Inc } else { InstructionType::Dec };
            mk(t, AddressMode::R, rp_spec((p) as int), un, al)
        } else if z == 4 || z == 5 {
            let t = if z == 4 { InstructionType::Inc } else { InstructionType::Dec };
            let mode = if y == 6 { AddressMode::Mr } else { AddressMode::R };
            mk(t, mode, r8_spec((y) as int), un, al)
        } else if z == 6 {
            let mode = if y == 6 { AddressMode::MrD8 } else { AddressMode::Rd8 };
            mk(InstructionType::Ld, mode, r8_spec((y) as int), un, al)
        } else {
            mk(misc_spec((y) as int), AddressMode::Imp, un, un, al)
        }
    } else {
        if z == 0 {
            if y < 4 {
                mk(InstructionType::Ret, AddressMode::Imp, un, un, cc_spec((y) as int))
            } else if y == 4 {
                mk(InstructionType::Ldh, AddressMode::A8R, un, RegisterType::A, al)
            } else if y == 5 {
                mk(InstructionType::Add, AddressMode::Rd8, RegisterType::Sp, un, al)
            } else if y == 6 {
                mk(InstructionType::Ldh, AddressMode::Ra8, RegisterType::A, un, al)
            } else {
                mk(InstructionType::Ld, AddressMode::HlSpR, RegisterType::Hl, RegisterType::Sp, al)
            }
        } else if z == 1 {
            if q == 0 {
                mk(InstructionType::Pop, AddressMode::R, rp2_spec((p) as int), un, al)
            } else if p == 0 {
                mk(InstructionType::Ret, AddressMode::Imp, un, un, al)
            } else if p == 1 {
                mk(InstructionType::Reti, AddressMode::Imp, un, un, al)
            } else if p == 2 {
                mk(InstructionType::Jp, AddressMode::R, RegisterType::Hl, un, al)
            } else {
                mk(InstructionType::Ld, AddressMode::Rr, RegisterType::Sp, RegisterType::Hl, al)
            }
        } else if z == 2 {
            if y < 4 {
                mk(InstructionType::Jp, AddressMode::D16, un, un, cc_spec((y) as int))
            } else if y == 4 {
                mk(InstructionType::Ld, AddressMode::MrR, RegisterType::C, RegisterType::A, al)
            } else if y == 5 {
                mk(InstructionType::Ld, AddressMode::A16R, un, RegisterType::A, al)
            } else if y == 6 {
                mk(InstructionType::Ld, AddressMode::RmR, RegisterType::A, RegisterType::C, al)
            } else {
                mk(InstructionType::Ld, AddressMode::Ra16, RegisterType::A, un, al)
            }
        } else if z == 3 {
            if y == 0 {
                mk(InstructionType::Jp, AddressMode::D16, un, un, al)
            } else if y == 1 {
                mk(InstructionType::Cb, AddressMode::D8, un, un, al)
            } else if y == 6 {
                mk(InstructionType::Di, AddressMode::Imp, un, un, al)
            } else if y == 7 {
                mk(InstructionType::Ei, AddressMode::Imp, un, un, al)
            } else {
                mk(InstructionType::Undefined, AddressMode::Imp, un, un, al)
            }
        } else if z == 4 {
            if y < 4 {
                mk(InstructionType::Call, AddressMode::D16, un, un, cc_spec((y) as int))
            } else {
                mk(InstructionType::Undefined, AddressMode::Imp, un, un, al)
            }
        } else if z == 5 {
            if q == 0 {
                mk(InstructionType::Push, AddressMode::R, rp2_spec((p) as int), un, al)
            } else if p == 0 {
                mk(InstructionType::Call, AddressMode::D16, un, un, al)
            } else {
                mk(InstructionType::Undefined, AddressMode::Imp, un, un, al)
            }
        } else if z == 6 {
            mk(alu_spec((y) as int), AddressMode::Rd8, RegisterType::A, un, al)
        } else {
            Instruction {
                ins_type: InstructionType::Rst,
                addr_mode: AddressMode::Imp,
                reg1: un,
                reg2: un,
                cond_type: al,
                param: Some((y * 8) as u8),
            }
        }
    }
}

fn make(
    t: InstructionType,
    m: AddressMode,
    r1: RegisterType,
    r2: RegisterType,
    c: ConditionType,
) -> (r: Instruction)
    ensures
        r == (Instruction { ins_type: t, addr_mode: m, reg1: r1, reg2: r2, cond_type: c, param: None }),
{
    Instruction { ins_type: t, addr_mode: m, reg1: r1, reg2: r2, cond_type: c, param: None }
}

fn r8(i: u8) -> (r: RegisterType)
    ensures
        r == r8_spec(i as int),
{
    match i {
        0 => RegisterType::B,
        1 => RegisterType::C,
        2 => RegisterType::D,
        3 => RegisterType::E,
        4 => RegisterType::H,
        5 => RegisterType::L,
        6 => RegisterType::Hl,
        _ => RegisterType::A,
    }
}

fn rp(p: u8) -> (r: RegisterType)
    ensures
        r == rp_spec(p as int),
{
    match p {
        0 => RegisterType::Bc,
        1 => RegisterType::De,
        2 => RegisterType::Hl,
        _ => RegisterType::Sp,
    }
}

fn rp2(p: u8) -> (r: RegisterType)
    ensures
        r == rp2_spec(p as int),
{
    match p {
        0 => RegisterType::Bc,
        1 => RegisterType::De,
        2 => RegisterType::Hl,
        _ => RegisterType::Af,
    }
}

fn cc(i: u8) -> (r: ConditionType)
    ensures
        r == cc_spec(i as int),
{
    match i {
        0 => ConditionType::Nz,
        1 => ConditionType::Z,
        2 => ConditionType::Nc,
        _ => ConditionType::C,
    }
}

fn alu(i: u8) -> (r: InstructionType)
    ensures
        r == alu_spec(i as int),
{
    match i {
        0 => InstructionType::Add,
        1 => InstructionType::Adc,
        2 => InstructionType::Sub,
        3 => InstructionType::Sbc,
        4 => InstructionType::And,
        5 => InstructionType::Xor,
        6 => InstructionType::Or,
        _ => InstructionType::Cp,
    }
}

fn misc(i: u8) -> (r: InstructionType)
    ensures
        r == misc_spec(i as int),
{
    match i {
        0 => InstructionType::Rlca,
        1 => InstructionType::Rrca,
        2 => InstructionType::Rla,
        3 => InstructionType::Rra,
        4 => InstructionType::Daa,
        5 => InstructionType::Cpl,
        6 => InstructionType::Scf,
        _ => InstructionType::Ccf,
    }
}

impl Instruction {
    /// Decodes an opcode of the main table. Total over all 256 values: an opcode with no
    /// meaning yields a descriptor of kind `Undefined`. With `x`, `y`, `z` the fields
    /// `op[7:6]`, `op[5:3]`, `op[2:0]`, and `p`, `q` the halves of `y`:
    #[verifier::rlimit(40)]
    pub fn instruction_by_opcode(opcode: u8) -> (r: Instruction)
        ensures
            r == decode_spec(opcode),
            ({
                let op = opcode as int;
                let x = op / 64;
                let y = (op / 8) % 8;
                let z = op % 8;
                let p = y / 2;
                let q = y % 2;
                &&& (r.ins_type == InstructionType::Undefined) == is_undefined_opcode(opcode)
                &&& (r.ins_type == InstructionType::Rst) == (x == 3 && z == 7)
                &&& r.param == (if x == 3 && z == 7 { Some((y * 8) as u8) } else { None::<u8> })
                // the block of register-to-register loads
                &&& (x == 1 && op != 0x76) ==> r == Instruction {
                    ins_type: InstructionType::Ld,
                    addr_mode: if y == 6 {
                        AddressMode::MrR
                    } else if z == 6 {
                        AddressMode::RmR
                    } else {
                        AddressMode::Rr
                    },
                    reg1: r8_spec(y),
                    reg2: r8_spec(z),
                    cond_type: ConditionType::Always,
                    param: None,
                }
                &&& op == 0x76 ==> r == plain(InstructionType::Halt)
                // the block of accumulator operations on a register or memory at HL
                &&& x == 2 ==> r == Instruction {
                    ins_type: alu_spec(y),
                    addr_mode: if z == 6 { AddressMode::RmR } else { AddressMode::Rr },
                    reg1: RegisterType::A,
                    reg2: r8_spec(z),
                    cond_type: ConditionType::Always,
                    param: None,
                }
                // accumulator operations on an immediate byte
                &&& (x == 3 && z == 6) ==> r == Instruction {
                    ins_type: alu_spec(y),
                    addr_mode: AddressMode::Rd8,
                    reg1: RegisterType::A,
                    reg2: RegisterType::Unset,
                    cond_type: ConditionType::Always,
                    param: None,
                }
                &&& (x == 0 && z == 7) ==> r == plain(misc_spec(y))
                // 8-bit increments, decrements and immediate loads
                &&& (x == 0 && (z == 4 || z == 5)) ==> r == Instruction {
                    ins_type: if z == 4 { InstructionType::Inc } else { InstructionType::Dec },
                    addr_mode: if y == 6 { AddressMode::Mr } else { AddressMode::R },
                    reg1: r8_spec(y),
                    reg2: RegisterType::Unset,
                    cond_type: ConditionType::Always,
                    param: None,
                }
                &&& (x == 0 && z == 6) ==> r == Instruction {
                    ins_type: InstructionType::Ld,
                    addr_mode: if y == 6 { AddressMode::MrD8 } else { AddressMode::Rd8 },
                    reg1: r8_spec(y),
                    reg2: RegisterType::Unset,
                    cond_type: ConditionType::Always,
                    param: None,
                }
                // 16-bit loads, additions, increments and decrements
                &&& (x == 0 && z == 1 && q == 0) ==> r == Instruction {
                    ins_type: InstructionType::Ld,
                    addr_mode: AddressMode::Rd16,
                    reg1: rp_spec(p),
                    reg2: RegisterType::Unset,
                    cond_type: ConditionType::Always,
                    param: None,
                }
                &&& (x == 0 && z == 1 && q == 1) ==> r == Instruction {
                    ins_type: InstructionType::Add,
                    addr_mode: AddressMode::Rr,
                    reg1: RegisterType::Hl,
                    reg2: rp_spec(p),
                    cond_type: ConditionType::Always,
                    param: None,
                }
                &&& (x == 0 && z == 3) ==> r == Instruction {
                    ins_type: if q == 0 { InstructionType::Inc } else { InstructionType::Dec },
                    addr_mode: AddressMode::R,
                    reg1: rp_spec(p),
                    reg2: RegisterType::Unset,
                    cond_type: ConditionType::Always,
                    param: None,
                }
                // stack operations
                &&& (x == 3 && z == 1 && q == 0) ==> r == Instruction {
                    ins_type: InstructionType::Pop,
                    addr_mode: AddressMode::R,
                    reg1: rp2_spec(p),
                    reg2: RegisterType::Unset,
                    cond_type: ConditionType::Always,
                    param: None,
                }
                &&& (x == 3 && z == 5 && q == 0) ==> r == Instruction {
                    ins_type: InstructionType::Push,
                    addr_mode: AddressMode::R,
                    reg1: rp2_spec(p),
                    reg2: RegisterType::Unset,
                    cond_type: ConditionType::Always,
                    param: None,
                }
                // control flow
                &&& (x == 0 && z == 0 && y >= 3) ==> r == Instruction {
                    ins_type: InstructionType::Jr,
                    addr_mode: AddressMode::D8,
                    reg1: RegisterType::Unset,
                    reg2: RegisterType::Unset,
                    cond_type: if y == 3 { ConditionType::Always } else { cc_spec(y - 4) },
                    param: None,
                }
                &&& ((x == 3 && z == 2 && y < 4) || op == 0xC3) ==> r == Instruction {
                    ins_type: InstructionType::Jp,
                    addr_mode: AddressMode::D16,
                    reg1: RegisterType::Unset,
                    reg2: RegisterType::Unset,
                    cond_type: if op == 0xC3 { ConditionType::Always } else { cc_spec(y) },
                    param: None,
                }
                &&& ((x == 3 && z == 4 && y < 4) || op == 0xCD) ==> r == Instruction {
                    ins_type: InstructionType::Call,
                    addr_mode: AddressMode::D16,
                    reg1: RegisterType::Unset,
                    reg2: RegisterType::Unset,
                    cond_type: if op == 0xCD { ConditionType::Always } else { cc_spec(y) },
                    param: None,
                }
                &&& (x == 3 && z == 0 && y < 4) ==> r == Instruction {
                    cond_type: cc_spec(y),
                    ..plain(InstructionType::Ret)
                }
                &&& op == 0xC9 ==> r == plain(InstructionType::Ret)
                &&& op == 0xD9 ==> r == plain(InstructionType::Reti)
                &&& op == 0xE9 ==> r == Instruction {
                    addr_mode: AddressMode::R,
                    reg1: RegisterType::Hl,
                    ..plain(InstructionType::Jp)
                }
                &&& op == 0xCB ==> r == Instruction { addr_mode: AddressMode::D8, ..plain(InstructionType::Cb) }
                &&& op == 0x00 ==> r == plain(InstructionType::Nop)
                &&& op == 0x10 ==> r == plain(InstructionType::Stop)
                &&& op == 0xF3 ==> r == plain(InstructionType::Di)
                &&& op == 0xFB ==> r == plain(InstructionType::Ei)
            }),
    {
        let x: u8 = opcode / 64;
        let y: u8 = (opcode / 8) % 8;
        let z: u8 = opcode % 8;
        let p: u8 = y / 2;
        let q: u8 = y % 2;
        let al = ConditionType::Always;
        let un = RegisterType::Unset;
        if x == 1 {
            if opcode == 0x76 {
                make(InstructionType::Halt, AddressMode::Imp, un, un, al)
            } else {
                let mode = if y == 6 {
                    AddressMode::MrR
                } else if z == 6 {
                    AddressMode::RmR
                } else {
                    AddressMode::Rr
                };
                make(InstructionType::Ld, mode, r8(y), r8(z), al)
            }
        } else if x == 2 {
            let mode = if z == 6 { AddressMode::RmR } else { AddressMode::Rr };
            make(alu(y), mode, RegisterType::A, r8(z), al)
        } else if x == 0 {
            if z == 0 {
                if y == 0 {
                    make(InstructionType::Nop, AddressMode::Imp, un, un, al)
                } else if y == 1 {
                    make(InstructionType::Ld, AddressMode::A16R, un, RegisterType::Sp, al)
                } else if y == 2 {
                    make(InstructionType::Stop, AddressMode::Imp, un, un, al)
                } else if y == 3 {
                    make(InstructionType::Jr, AddressMode::D8, un, un, al)
                } else {
                    make(InstructionType::Jr, AddressMode::D8, un, un, cc(y - 4))
                }
            } else if z == 1 {
                if q == 0 {
                    make(InstructionType::Ld, AddressMode::Rd16, rp(p), un, al)
                } else {
                    make(InstructionType::Add, AddressMode::Rr, RegisterType::Hl, rp(p), al)
                }
            } else if z == 2 {
                if q == 0 {
                    if p == 0 {
                        make(InstructionType::Ld, AddressMode::MrR, RegisterType::Bc, RegisterType::A, al)
                    } else if p == 1 {
                        make(InstructionType::Ld, AddressMode::MrR, RegisterType::De, RegisterType::A, al)
                    } else if p == 2 {
                        make(InstructionType::Ld, AddressMode::HliR, RegisterType::Hl, RegisterType::A, al)
                    } else {
                        make(InstructionType::Ld, AddressMode::HldR, RegisterType::Hl, RegisterType::A, al)
                    }
                } else {
                    if p == 0 {
                        make(InstructionType::Ld, AddressMode::RmR, RegisterType::A, RegisterType::Bc, al)
                    } else if p == 1 {
                        make(InstructionType::Ld, AddressMode::RmR, RegisterType::A, RegisterType::De, al)
                    } else if p == 2 {
                        make(InstructionType::Ld, AddressMode::Rhli, RegisterType::A, RegisterType::Hl, al)
                    } else {
                        make(InstructionType::Ld, AddressMode::Rhld, RegisterType::A, RegisterType::Hl, al)
                    }
                }
            } else if z == 3 {
                let t = if q == 0 { InstructionType::Inc } else { InstructionType::Dec };
                make(t, AddressMode::R, rp(p), un, al)
            } else if z == 4 || z == 5 {
                let t = if z == 4 { InstructionType::Inc } else { InstructionType::Dec };
                let mode = if y == 6 { AddressMode::Mr } else { AddressMode::R };
                make(t, mode, r8(y), un, al)
            } else if z == 6 {
                let mode = if y == 6 { AddressMode::MrD8 } else { AddressMode::Rd8 };
                make(InstructionType::Ld, mode, r8(y), un, al)
            } else {
                make(misc(y), AddressMode::Imp, un, un, al)
            }
        } else {
            if z == 0 {
                if y < 4 {
                    make(InstructionType::Ret, AddressMode::Imp, un, un, cc(y))
                } else if y == 4 {
                    make(InstructionType::Ldh, AddressMode::A8R, un, RegisterType::A, al)
                } else if y == 5 {
                    make(InstructionType::Add, AddressMode::Rd8, RegisterType::Sp, un, al)
                } else if y == 6 {
                    make(InstructionType::Ldh, AddressMode::Ra8, RegisterType::A, un, al)
                } else {
                    make(InstructionType::Ld, AddressMode::HlSpR, RegisterType::Hl, RegisterType::Sp, al)
                }
            } else if z == 1 {
                if q == 0 {
                    make(InstructionType::Pop, AddressMode::R, rp2(p), un, al)
                } else if p == 0 {
                    make(InstructionType::Ret, AddressMode::Imp, un, un, al)
                } else if p == 1 {
                    make(InstructionType::Reti, AddressMode::Imp, un, un, al)
                } else if p == 2 {
                    make(InstructionType::Jp, AddressMode::R, RegisterType::Hl, un, al)
                } else {
                    make(InstructionType::Ld, AddressMode::Rr, RegisterType::Sp, RegisterType::Hl, al)
                }
            } else if z == 2 {
                if y < 4 {
                    make(InstructionType::Jp, AddressMode::D16, un, un, cc(y))
                } else if y == 4 {
                    make(InstructionType::Ld, AddressMode::MrR, RegisterType::C, RegisterType::A, al)
                } else if y == 5 {
                    make(InstructionType::Ld, AddressMode::A16R, un, RegisterType::A, al)
                } else if y == 6 {
                    make(InstructionType::Ld, AddressMode::RmR, RegisterType::A, RegisterType::C, al)
                } else {
                    make(InstructionType::Ld, AddressMode::Ra16, RegisterType::A, un, al)
                }
            } else if z == 3 {
                if y == 0 {
                    make(InstructionType::Jp, AddressMode::D16, un, un, al)
                } else if y == 1 {
                    make(InstructionType::Cb, AddressMode::D8, un, un, al)
                } else if y == 6 {
                    make(InstructionType::Di, AddressMode::Imp, un, un, al)
                } else if y == 7 {
                    make(InstructionType::Ei, AddressMode::Imp, un, un, al)
                } else {
                    make(InstructionType::Undefined, AddressMode::Imp, un, un, al)
                }
            } else if z == 4 {
                if y < 4 {
                    make(InstructionType::Call, AddressMode::D16, un, un, cc(y))
                } else {
                    make(InstructionType::Undefined, AddressMode::Imp, un, un, al)
                }
            } else if z == 5 {
                if q == 0 {
                    make(InstructionType::Push, AddressMode::R, rp2(p), un, al)
                } else if p == 0 {
                    make(InstructionType::Call, AddressMode::D16, un, un, al)
                } else {
                    make(InstructionType::Undefined, AddressMode::Imp, un, un, al)
                }
            } else if z == 6 {
                make(alu(y), AddressMode::Rd8, RegisterType::A, un, al)
            } else {
                Instruction {
                    ins_type: InstructionType::Rst,
                    addr_mode: AddressMode::Imp,
                    reg1: un,
                    reg2: un,
                    cond_type: al,
                    param: Some(y * 8),
                }
            }
        }
    }
}

} // verus!
