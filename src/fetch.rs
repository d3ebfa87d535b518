use vstd::prelude::*;
use crate::cpu::{Cpu, fetch_spec};
use crate::enums::{AddressMode, RegisterType};

verus! {

impl Cpu {
    /// Reads the little-endian word at PC, one M-cycle per byte.
    fn fetch_imm16(&mut self) -> (r: u16)
        requires
            old(self).wf(),
        ensures
            final(self).wf(),
            r == crate::cpu::imm16(old(self)@),
            final(self)@ == crate::cpu::tick(old(self)@, 2),
    {
        let pc = self.registers.pc;
        let lo = self.bus.read(pc) as u16;
        self.bus.cycles(1);
        let ghost b1 = self.bus@;
        let hi = self.bus.read(pc.wrapping_add(1)) as u16;
        self.bus.cycles(1);
        proof {
            crate::bus::lemma_cycles_add(old(self)@.bus, 1, 1);
        }
        lo + 256 * hi
    }

    /// Operand resolution for the current instruction: produces the operand value and the
    /// memory destination, with one M-cycle for each memory access.
    pub fn fetch_data(&mut self)
        requires
            old(self).wf(),
        ensures
            final(self).wf(),
            final(self)@ == fetch_spec(old(self)@),
            final(self).instruction == old(self).instruction,
            final(self).opcode == old(self).opcode,
            final(self).halted == old(self).halted,
            final(self).int_master_enabled == old(self).int_master_enabled,
            final(self).enabling_ime == old(self).enabling_ime,
    {
        proof {
            reveal(fetch_spec);
        }
        self.mem_dest = 0;
        self.dest_is_mem = false;
        let i = self.instruction;
        match i.addr_mode {
            AddressMode::Imp => {},
            AddressMode::R => {
                self.fetched_data = self.read_register(i.reg1);
            },
            AddressMode::Rr => {
                self.fetched_data = self.read_register(i.reg2);
            },
            AddressMode::Rd8 | AddressMode::Ra8 | AddressMode::HlSpR | AddressMode::D8 => {
                self.fetched_data = self.bus.read(self.registers.pc) as u16;
                self.bus.cycles(1);
                self.registers.pc = self.registers.pc.wrapping_add(1);
            },
            AddressMode::Rd16 | AddressMode::D16 => {
                self.fetched_data = self.fetch_imm16();
                self.registers.pc = self.registers.pc.wrapping_add(2);
            },
            AddressMode::MrR => {
                self.fetched_data = self.read_register(i.reg2);
                let mut d = self.read_register(i.reg1);
                if i.reg1 == RegisterType::C {
                    d = d | 0xFF00;
                }
                self.mem_dest = d;
                self.dest_is_mem = true;
            },
            AddressMode::RmR => {
                let mut addr = self.read_register(i.reg2);
                if i.reg2 == RegisterType::C {
                    addr = addr | 0xFF00;
                }
                self.fetched_data = self.bus.read(addr) as u16;
                self.bus.cycles(1);
            },
            AddressMode::Rhli | AddressMode::Rhld => {
                let hl = self.read_register(RegisterType::Hl);
                let addr = self.read_register(i.reg2);
                self.fetched_data = self.bus.read(addr) as u16;
                self.bus.cycles(1);
                if i.addr_mode == AddressMode::Rhli {
                    self.set_register(RegisterType::Hl, hl.wrapping_add(1));
                } else {
                    self.set_register(RegisterType::Hl, hl.wrapping_sub(1));
                }
            },
            AddressMode::HliR | AddressMode::HldR => {
                let hl = self.read_register(RegisterType::Hl);
                self.fetched_data = self.read_register(i.reg2);
                self.mem_dest = self.read_register(i.reg1);
                self.dest_is_mem = true;
                if i.addr_mode == AddressMode::HliR {
                    self.set_register(RegisterType::Hl, hl.wrapping_add(1));
                } else {
                    self.set_register(RegisterType::Hl, hl.wrapping_sub(1));
                }
            },
            AddressMode::A8R => {
                let lo = self.bus.read(self.registers.pc) as u16;
                self.mem_dest = lo | 0xFF00;
                self.dest_is_mem = true;
                self.bus.cycles(1);
                self.registers.pc = self.registers.pc.wrapping_add(1);
            },
            AddressMode::A16R | AddressMode::D16R => {
                let v = self.read_register(i.reg2);
                let a = self.fetch_imm16();
                self.mem_dest = a;
                self.dest_is_mem = true;
                self.registers.pc = self.registers.pc.wrapping_add(2);
                self.fetched_data = v;
            },
            AddressMode::MrD8 => {
                let d = self.read_register(i.reg1);
                self.fetched_data = self.bus.read(self.registers.pc) as u16;
                self.bus.cycles(1);
                self.registers.pc = self.registers.pc.wrapping_add(1);
                self.mem_dest = d;
                self.dest_is_mem = true;
            },
            AddressMode::Mr => {
                let a = self.read_register(i.reg1);
                self.mem_dest = a;
                self.dest_is_mem = true;
                self.fetched_data = self.bus.read(a) as u16;
                self.bus.cycles(1);
            },
            AddressMode::Ra16 => {
                let a = self.fetch_imm16();
                self.registers.pc = self.registers.pc.wrapping_add(2);
                self.fetched_data = self.bus.read(a) as u16;
                self.bus.cycles(1);
            },
        }
    }
}

} // verus!
