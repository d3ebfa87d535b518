use vstd::prelude::*;

verus! {

/// Branch condition of a control-flow instruction.
#[derive(Debug, Clone, Copy, PartialEq, Eq, Structural)]
pub enum ConditionType {
    Always,
    Nz,
    Z,
    Nc,
    C,
}

/// The five interrupt sources, from the highest priority to the lowest.
#[derive(Debug, Clone, Copy, PartialEq, Eq, Structural)]
pub enum InterruptType {
    Vblank,
    LcdStat,
    Timer,
    Serial,
    Joypad,
}

/// Register identifiers: the eight 8-bit registers, the four pairs, SP and PC; `Unset`
/// stands for an absent operand.
#[derive(Debug, Clone, Copy, PartialEq, Eq, Structural)]
pub enum RegisterType {
    Unset,
    A,
    F,
    B,
    C,
    D,
    E,
    H,
    L,
    Af,
    Bc,
    De,
    Hl,
    Sp,
    Pc,
}

/// How an instruction locates its operand and its destination.
#[derive(Debug, Clone, Copy, PartialEq, Eq, Structural)]
pub enum AddressMode {
    /// No operand.
    Imp,
    /// Operand is register 1.
    R,
    /// Operand is register 2.
    Rr,
    /// Operand is the byte after the opcode.
    Rd8,
    /// Operand is the little-endian word after the opcode.
    Rd16,
    /// Destination is memory at register 1, operand is register 2.
    MrR,
    /// Operand is memory at register 2.
    RmR,
    /// Operand is memory at HL, then HL is incremented.
    Rhli,
    /// Operand is memory at HL, then HL is decremented.
    Rhld,
    /// Destination is memory at HL, operand is register 2, then HL is incremented.
    HliR,
    /// Destination is memory at HL, operand is register 2, then HL is decremented.
    HldR,
    /// Operand is a high-page offset fetched after the opcode.
    Ra8,
    /// Destination is the high-page address fetched after the opcode.
    A8R,
    /// Operand is a signed byte to add to SP.
    HlSpR,
    /// Operand is a little-endian word (jump and call targets).
    D16,
    /// Operand is a byte (relative jumps, the prefixed opcode).
    D8,
    /// Destination is the absolute address after the opcode, operand register 2.
    D16R,
    /// Destination is memory at register 1, operand the byte after the opcode.
    MrD8,
    /// Destination and operand are memory at register 1.
    Mr,
    /// Destination is the absolute address after the opcode, operand register 2.
    A16R,
    /// Operand is memory at the absolute address after the opcode.
    Ra16,
}

/// Operation kind of an instruction.
#[derive(Debug, Clone, Copy, PartialEq, Eq, Structural)]
pub enum InstructionType {
    Unset,
    Nop,
    Ld,
    Inc,
    Dec,
    Rlca,
    Add,
    Rrca,
    Stop,
    Rla,
    Jr,
    Rra,
    Daa,
    Cpl,
    Scf,
    Ccf,
    Halt,
    Adc,
    Sub,
    Sbc,
    And,
    Xor,
    Or,
    Cp,
    Pop,
    Jp,
    Push,
    Ret,
    Cb,
    Call,
    Reti,
    Ldh,
    Di,
    Ei,
    Rst,
    Undefined,
}

/// Mode of the display controller, as held in the low two bits of its status register.
#[derive(Debug, Clone, Copy, PartialEq, Eq, Structural)]
pub enum LCDMode {
    Hblank,
    Vblank,
    Oam,
    Xfer,
}

/// Sources of the display status interrupt, as bits of the status register.
#[derive(Debug, Clone, Copy, PartialEq, Eq, Structural)]
pub enum StatSrc {
    Hblank,
    Vblank,
    Oam,
    Lyc,
}

} // verus!
