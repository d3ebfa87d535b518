use vstd::prelude::*;
use crate::arith::{inc_spec, dec_spec, add_spec, adc_spec, sub_spec, sbc_spec, and_spec, or_spec, xor_spec, cp_spec};
use crate::bitops::{cb_spec, rot_a_spec, daa_spec, cpl_spec, scf_spec, ccf_spec};
use crate::bus::read_spec;
use crate::cpu::{Cpu, CpuFault, CpuView, fetch_spec, tick};
use crate::enums::InstructionType;
use crate::instruction::{Instruction, decode_spec};
use crate::interrupts::{handle, handle_spec};
use crate::processor::{ld_spec, ldh_spec, jp_spec, jr_spec, goto_spec, rst_target, ret_spec, pop_spec, push_op_spec};
use crate::registers::Registers;

verus! {

/// Whether an operation kind has a routine: `STOP`, undefined opcodes and the blank
/// descriptor are fatal.
pub open spec fn executable(t: InstructionType) -> bool {
    !(t == InstructionType::Stop || t == InstructionType::Undefined || t == InstructionType::Unset)
}

/// Execution dispatch: the state after the current instruction's routine.
#[verifier::opaque]
pub open spec fn execute_spec(s: CpuView) -> CpuView {
    match s.instruction.ins_type {
        InstructionType::Ld => ld_spec(s),
        InstructionType::Ldh => ldh_spec(s),
        InstructionType::Jp => jp_spec(s),
        InstructionType::Jr => jr_spec(s),
        InstructionType::Call => goto_spec(s, s.fetched_data, true),
        InstructionType::Rst => goto_spec(s, rst_target(s), true),
        InstructionType::Ret => ret_spec(s),
        InstructionType::Reti => ret_spec(CpuView { ime: true, ..s }),
        InstructionType::Pop => pop_spec(s),
        InstructionType::Push => push_op_spec(s),
        InstructionType::Di => CpuView { ime: false, enabling_ime: false, ..s },
        InstructionType::Ei => CpuView { enabling_ime: true, ..s },
        InstructionType::Halt => CpuView { halted: true, ..s },
        InstructionType::Inc => inc_spec(s),
        InstructionType::Dec => dec_spec(s),
        InstructionType::Add => add_spec(s),
        InstructionType::Adc => adc_spec(s),
        InstructionType::Sub => sub_spec(s),
        InstructionType::Sbc => sbc_spec(s),
        InstructionType::And => and_spec(s),
        InstructionType::Or => or_spec(s),
        InstructionType::Xor => xor_spec(s),
        InstructionType::Cp => cp_spec(s),
        InstructionType::Cb => cb_spec(s),
        InstructionType::Rlca => rot_a_spec(s, 0),
        InstructionType::Rrca => rot_a_spec(s, 1),
        InstructionType::Rla => rot_a_spec(s, 2),
        InstructionType::Rra => rot_a_spec(s, 3),
        InstructionType::Daa => daa_spec(s),
        InstructionType::Cpl => cpl_spec(s),
        InstructionType::Scf => scf_spec(s),
        InstructionType::Ccf => ccf_spec(s),
        _ => s,
    }
}

/// Fetch and decode: the opcode at PC is read, PC advances, one M-cycle passes.
pub open spec fn fetch_instruction_spec(s: CpuView) -> CpuView {
    let op = read_spec(s.bus, s.regs.pc);
    tick(
        CpuView {
            opcode: op,
            instruction: decode_spec(op),
            regs: Registers { pc: s.regs.pc.wrapping_add(1), ..s.regs },
            ..s
        },
        1,
    )
}

/// The state after the instruction part of a step: fetch, resolve, execute; or, when
/// halted, one idle M-cycle, waking when any request bit is set.
pub open spec fn run_spec(s: CpuView) -> CpuView {
    if !s.halted {
        execute_spec(fetch_spec(fetch_instruction_spec(s)))
    } else {
        let s1 = tick(s, 1);
        if s1.bus.int_flags != 0 { CpuView { halted: false, ..s1 } } else { s1 }
    }
}

/// The delayed enable: when the latch was set before this step and survived it, master
/// enable turns on now that the instruction following `EI` has completed.
pub open spec fn latch_spec(armed: bool, s: CpuView) -> CpuView {
    if armed && s.enabling_ime { CpuView { ime: true, enabling_ime: false, ..s } } else { s }
}

/// One step: an instruction (or an idle M-cycle), the delayed enable, then the interrupt
/// check when master enable is on.
pub open spec fn step_spec(s: CpuView) -> CpuView {
    let s1 = latch_spec(s.enabling_ime, run_spec(s));
    if s1.ime { handle_spec(s1) } else { s1 }
}

/// Whether a step from `s` meets a fatal opcode.
pub open spec fn step_faults(s: CpuView) -> bool {
    !s.halted && !executable(decode_spec(read_spec(s.bus, s.regs.pc)).ins_type)
}

impl Cpu {
    fn fetch_instruction(&mut self)
        requires
            old(self).wf(),
        ensures
            final(self).wf(),
            final(self)@ == fetch_instruction_spec(old(self)@),
    {
        self.opcode = self.bus.read(self.registers.pc);
        self.registers.pc = self.registers.pc.wrapping_add(1);
        self.instruction = Instruction::instruction_by_opcode(self.opcode);
        self.bus.cycles(1);
    }

    fn process_di(&mut self)
        ensures
            final(self)@ == (CpuView { ime: false, enabling_ime: false, ..old(self)@ }),
            final(self).bus == old(self).bus,
    {
        self.int_master_enabled = false;
        self.enabling_ime = false;
    }

    fn process_ei(&mut self)
        ensures
            final(self)@ == (CpuView { enabling_ime: true, ..old(self)@ }),
            final(self).bus == old(self).bus,
    {
        self.enabling_ime = true;
    }

    fn process_halt(&mut self)
        ensures
            final(self)@ == (CpuView { halted: true, ..old(self)@ }),
            final(self).bus == old(self).bus,
    {
        self.halted = true;
    }

    /// Runs the current instruction's routine. Fails, changing nothing, on an operation
    /// kind with no routine.
    pub fn execute(&mut self) -> (r: Result<(), CpuFault>)
        requires
            old(self).wf(),
        ensures
            final(self).wf(),
            r is Ok == executable(old(self).instruction.ins_type),
            r is Ok ==> final(self)@ == execute_spec(old(self)@),
            r is Err ==> *final(self) == *old(self),
            r matches Err(f) ==> f.opcode == old(self).opcode && f.kind == old(self).instruction.ins_type
                && f.pc == old(self).registers.pc,
    {
        proof {
            reveal(execute_spec);
        }
        match self.instruction.ins_type {
            InstructionType::Nop => {},
            InstructionType::Ld => self.process_ld(),
            InstructionType::Ldh => self.process_ldh(),
            InstructionType::Jp => self.process_jp(),
            InstructionType::Jr => self.process_jr(),
            InstructionType::Call => self.process_call(),
            InstructionType::Rst => self.process_rst(),
            InstructionType::Ret => self.process_ret(),
            InstructionType::Reti => self.process_reti(),
            InstructionType::Pop => self.process_pop(),
            InstructionType::Push => self.process_push(),
            InstructionType::Di => self.process_di(),
            InstructionType::Ei => self.process_ei(),
            InstructionType::Halt => self.process_halt(),
            InstructionType::Inc => self.process_inc(),
            InstructionType::Dec => self.process_dec(),
            InstructionType::Add => self.process_add(),
            InstructionType::Adc => self.process_adc(),
            InstructionType::Sub => self.process_sub(),
            InstructionType::Sbc => self.process_sbc(),
            InstructionType::And => self.process_and(),
            InstructionType::Or => self.process_or(),
            InstructionType::Xor => self.process_xor(),
            InstructionType::Cp => self.process_cp(),
            InstructionType::Cb => self.process_cb(),
            InstructionType::Rlca => self.process_rlca(),
            InstructionType::Rrca => self.process_rrca(),
            InstructionType::Rla => self.process_rla(),
            InstructionType::Rra => self.process_rra(),
            InstructionType::Daa => self.process_daa(),
            InstructionType::Cpl => self.process_cpl(),
            InstructionType::Scf => self.process_csf(),
            InstructionType::Ccf => self.process_ccf(),
            _ => {
                return Err(CpuFault { pc: self.registers.pc, opcode: self.opcode, kind: self.instruction.ins_type });
            },
        }
        Ok(())
    }

    /// Performs one step: one instruction, or one idle M-cycle while halted; then applies
    /// a pending `EI` and checks interrupts. Fails on an undefined opcode or `STOP`,
    /// reporting its address, opcode and kind.
    pub fn step(&mut self) -> (r: Result<(), CpuFault>)
        requires
            old(self).wf(),
        ensures
            final(self).wf(),
            r is Err == step_faults(old(self)@),
            r is Ok ==> final(self)@ == step_spec(old(self)@),
            r matches Err(f) ==> f.pc == old(self).registers.pc
                && f.opcode == read_spec(old(self)@.bus, old(self).registers.pc)
                && f.kind == decode_spec(f.opcode).ins_type,
    {
        let armed = self.enabling_ime;
        if !self.halted {
            let pc = self.registers.pc;
            self.fetch_instruction();
            self.fetch_data();
            match self.execute() {
                Ok(()) => {},
                Err(f) => {
                    return Err(CpuFault { pc, ..f });
                },
            }
        } else {
            self.bus.cycles(1);
            if self.bus.interrupt_flags != 0 {
                self.halted = false;
            }
        }
        if armed && self.enabling_ime {
            self.int_master_enabled = true;
            self.enabling_ime = false;
        }
        if self.int_master_enabled {
            handle(self);
        }
        Ok(())
    }
}

} // verus!
