use vstd::prelude::*;
use crate::bus::{BusView, bus_wf, read_spec, write_spec, read16_spec, is_ram_address, cycles_spec, lemma_cycles_frame, lemma_cycles_add};
use crate::common::{bit_spec, lemma_set_bit};
use crate::cpu::{CpuView, fetch_spec, flags_spec, opt_set, imm16, tick, adv_pc};
use crate::engine::{execute_spec, step_spec, run_spec, fetch_instruction_spec};
use crate::arith::{inc_spec, dec_spec, xor_spec};
use crate::enums::{AddressMode, ConditionType, InstructionType, InterruptType, RegisterType};
use crate::instruction::decode_spec;
use crate::interrupts::{handle_spec, is_pending, service_spec};
use crate::registers::{is_8bit_spec, is_16bit_spec};
use crate::stack::{push16_spec, pop16_state, pop16_value, pop_state, pop_value};
use crate::processor::{goto_spec, ret_spec, set_pc};

verus! {

/// Forcing one optional bit changes that bit alone.
pub proof fn lemma_opt_set(v: u8, n: u8, o: Option<bool>, m: u8)
    requires
        n < 8,
        m < 8,
    ensures
        bit_spec(opt_set(v, n, o), m) == (if m == n {
            match o {
                Some(b) => b,
                None => bit_spec(v, m),
            }
        } else {
            bit_spec(v, m)
        }),
{
    if let Some(b) = o {
        lemma_set_bit(v, n, b, m);
    }
}

/// A flag update forces each given flag and keeps each other one.
pub proof fn lemma_flags(f: u8, z: Option<bool>, n: Option<bool>, h: Option<bool>, c: Option<bool>)
    ensures
        bit_spec(flags_spec(f, z, n, h, c), 7) == (match z { Some(b) => b, None => bit_spec(f, 7) }),
        bit_spec(flags_spec(f, z, n, h, c), 6) == (match n { Some(b) => b, None => bit_spec(f, 6) }),
        bit_spec(flags_spec(f, z, n, h, c), 5) == (match h { Some(b) => b, None => bit_spec(f, 5) }),
        bit_spec(flags_spec(f, z, n, h, c), 4) == (match c { Some(b) => b, None => bit_spec(f, 4) }),
{
    let f1 = opt_set(f, 7, z);
    let f2 = opt_set(f1, 6, n);
    let f3 = opt_set(f2, 5, h);
    lemma_opt_set(f, 7, z, 7);
    lemma_opt_set(f, 7, z, 6);
    lemma_opt_set(f, 7, z, 5);
    lemma_opt_set(f, 7, z, 4);
    lemma_opt_set(f1, 6, n, 7);
    lemma_opt_set(f1, 6, n, 6);
    lemma_opt_set(f1, 6, n, 5);
    lemma_opt_set(f1, 6, n, 4);
    lemma_opt_set(f2, 5, h, 7);
    lemma_opt_set(f2, 5, h, 6);
    lemma_opt_set(f2, 5, h, 5);
    lemma_opt_set(f2, 5, h, 4);
    lemma_opt_set(f3, 4, c, 7);
    lemma_opt_set(f3, 4, c, 6);
    lemma_opt_set(f3, 4, c, 5);
    lemma_opt_set(f3, 4, c, 4);
}

/// A write to working or high RAM is read back, and leaves every other such address alone.
pub proof fn lemma_ram_write_read(b: BusView, a: u16, v: u8, x: u16)
    requires
        bus_wf(b),
        is_ram_address(a),
        is_ram_address(x),
    ensures
        read_spec(write_spec(b, a, v), x) == (if x == a { v } else { read_spec(b, x) }),
        write_spec(b, a, v).rom == b.rom,
        bus_wf(write_spec(b, a, v)),
{
}

proof fn lemma_exec_xor(s: CpuView)
    requires
        s.instruction.ins_type == InstructionType::Xor,
    ensures
        execute_spec(s) == xor_spec(s),
{
    reveal(execute_spec);
}

proof fn lemma_exec_inc(s: CpuView)
    requires
        s.instruction.ins_type == InstructionType::Inc,
    ensures
        execute_spec(s) == inc_spec(s),
{
    reveal(execute_spec);
}

proof fn lemma_exec_dec(s: CpuView)
    requires
        s.instruction.ins_type == InstructionType::Dec,
    ensures
        execute_spec(s) == dec_spec(s),
{
    reveal(execute_spec);
}

proof fn lemma_fetch_r(s: CpuView)
    requires
        s.instruction.addr_mode == AddressMode::R,
    ensures
        fetch_spec(s).fetched_data == s.regs.read_spec(s.instruction.reg1),
        fetch_spec(s).regs == s.regs,
        fetch_spec(s).instruction == s.instruction,
        fetch_spec(s).bus == s.bus,
{
    reveal(fetch_spec);
}

proof fn lemma_fetch_rr(s: CpuView)
    requires
        s.instruction.addr_mode == AddressMode::Rr,
    ensures
        fetch_spec(s).fetched_data == s.regs.read_spec(s.instruction.reg2),
        fetch_spec(s).regs == s.regs,
        fetch_spec(s).instruction == s.instruction,
{
    reveal(fetch_spec);
}

/// `XOR A` (source and destination both A) leaves A zero with Zero set and Subtract,
/// Half-carry and Carry clear, whatever A held.
pub proof fn lemma_xor_a_a(s: CpuView)
    requires
        s.instruction == decode_spec(0xAF),
    ensures
        ({
            let t = execute_spec(fetch_spec(s));
            t.regs.a == 0 && t.regs.z() && !t.regs.n() && !t.regs.hc() && !t.regs.cy()
        }),
{
    let i = s.instruction;
    assert(i.ins_type == InstructionType::Xor && i.addr_mode == AddressMode::Rr && i.reg2 == RegisterType::A);
    let a = s.regs.a;
    let f = fetch_spec(s);
    lemma_fetch_rr(s);
    lemma_exec_xor(f);
    assert(a ^ a == 0) by (bit_vector);
    lemma_flags(f.regs.f, Some(true), Some(false), Some(false), Some(false));
}

/// Pushing a word and popping it back returns the word and restores every register,
/// SP included, when the two stack bytes lie in working or high RAM.
pub proof fn lemma_push_pop16(s: CpuView, v: u16)
    requires
        bus_wf(s.bus),
        is_ram_address(s.regs.sp.wrapping_sub(1)),
        is_ram_address(s.regs.sp.wrapping_sub(2)),
    ensures
        pop16_value(push16_spec(s, v)) == v,
        pop16_state(push16_spec(s, v)).regs == s.regs,
{
    let sp = s.regs.sp;
    let hi = (v / 256) as u8;
    let lo = (v % 256) as u8;
    let b1 = write_spec(s.bus, sp.wrapping_sub(1), hi);
    lemma_ram_write_read(s.bus, sp.wrapping_sub(1), hi, sp.wrapping_sub(1));
    lemma_ram_write_read(b1, sp.wrapping_sub(2), lo, sp.wrapping_sub(2));
    lemma_ram_write_read(b1, sp.wrapping_sub(2), lo, sp.wrapping_sub(1));
    assert(sp.wrapping_sub(1).wrapping_sub(1) == sp.wrapping_sub(2));
    assert(sp.wrapping_sub(2).wrapping_add(1) == sp.wrapping_sub(1));
    assert(sp.wrapping_sub(1).wrapping_add(1) == sp);
}

/// A 16-bit increment adds one modulo 2^16, so 0xFFFF wraps to 0, and touches no flag.
pub proof fn lemma_inc16(s: CpuView, op: u8)
    requires
        op == 0x03 || op == 0x13 || op == 0x23 || op == 0x33,
        s.instruction == decode_spec(op),
    ensures
        ({
            let t = execute_spec(fetch_spec(s));
            let r = decode_spec(op).reg1;
            &&& t.regs.read_spec(r) == s.regs.read_spec(r).wrapping_add(1)
            &&& s.regs.read_spec(r) == 0xFFFF ==> t.regs.read_spec(r) == 0
            &&& t.regs.f == s.regs.f
        }),
{
    let i = s.instruction;
    assert(i.ins_type == InstructionType::Inc && i.addr_mode == AddressMode::R && is_16bit_spec(i.reg1)
        && i.reg1 != RegisterType::Af && i.reg1 != RegisterType::Pc);
    let f = fetch_spec(s);
    lemma_fetch_r(s);
    lemma_exec_inc(f);
}

/// Decrementing an 8-bit register whose low nibble is 0 leaves a low nibble of 0xF, sets
/// Half-carry and Subtract, and keeps Carry.
pub proof fn lemma_dec8_half_borrow(s: CpuView, op: u8)
    requires
        op == 0x05 || op == 0x0D || op == 0x15 || op == 0x1D || op == 0x25 || op == 0x2D || op == 0x3D,
        s.instruction == decode_spec(op),
        s.regs.read_spec(decode_spec(op).reg1) % 16 == 0,
    ensures
        ({
            let t = execute_spec(fetch_spec(s));
            let r = decode_spec(op).reg1;
            &&& t.regs.read_spec(r) % 16 == 15
            &&& t.regs.hc()
            &&& t.regs.n()
            &&& t.regs.cy() == s.regs.cy()
        }),
{
    let i = s.instruction;
    let r = i.reg1;
    assert(i.ins_type == InstructionType::Dec && i.addr_mode == AddressMode::R && is_8bit_spec(r) && r != RegisterType::F);
    let f = fetch_spec(s);
    lemma_fetch_r(s);
    lemma_exec_dec(f);
    let v = (s.regs.read_spec(r) as u8).wrapping_sub(1);
    lemma_flags(f.regs.write_spec(r, v as u16).f, Some(v == 0), Some(true), Some(v % 16 == 15), None);
}

proof fn lemma_handle_unfold(s: CpuView)
    ensures
        handle_spec(s) == (if is_pending(s.bus, InterruptType::Vblank) {
            service_spec(s, InterruptType::Vblank)
        } else if is_pending(s.bus, InterruptType::LcdStat) {
            service_spec(s, InterruptType::LcdStat)
        } else if is_pending(s.bus, InterruptType::Timer) {
            service_spec(s, InterruptType::Timer)
        } else if is_pending(s.bus, InterruptType::Serial) {
            service_spec(s, InterruptType::Serial)
        } else if is_pending(s.bus, InterruptType::Joypad) {
            service_spec(s, InterruptType::Joypad)
        } else {
            s
        }),
{
    reveal(handle_spec);
}

/// With V-blank and Timer both requested and enabled, the interrupt check services V-blank
/// alone: PC is 0x40, V-blank's request bit is cleared, Timer's stays set, master enable
/// is cleared; the stack bytes lie in working or high RAM.
pub proof fn lemma_vblank_first(s: CpuView)
    requires
        bus_wf(s.bus),
        is_ram_address(s.regs.sp.wrapping_sub(1)),
        is_ram_address(s.regs.sp.wrapping_sub(2)),
        s.bus.int_flags & 0x01 != 0,
        s.bus.ie & 0x01 != 0,
        s.bus.int_flags & 0x04 != 0,
        s.bus.ie & 0x04 != 0,
    ensures
        ({
            let t = handle_spec(s);
            &&& t.regs.pc == 0x40
            &&& t.bus.int_flags & 0x01 == 0
            &&& t.bus.int_flags & 0x04 != 0
            &&& !t.ime
        }),
{
    lemma_handle_unfold(s);
    let x = s.bus.int_flags;
    assert(is_pending(s.bus, InterruptType::Vblank));
    let sp = s.regs.sp;
    let pc = s.regs.pc;
    let b1 = write_spec(s.bus, sp.wrapping_sub(1), (pc / 256) as u8);
    lemma_ram_write_read(s.bus, sp.wrapping_sub(1), (pc / 256) as u8, sp.wrapping_sub(1));
    lemma_ram_write_read(b1, sp.wrapping_sub(2), (pc % 256) as u8, sp.wrapping_sub(2));
    assert(sp.wrapping_sub(1).wrapping_sub(1) == sp.wrapping_sub(2));
    assert(push16_spec(s, pc).bus.int_flags == x);
    assert((x & !0x01u8) & 0x01 == 0 && (x & 0x04 != 0 ==> (x & !0x01u8) & 0x04 != 0)) by (bit_vector);
}

/// A halted step leaves the registers alone and stays halted while no request bit is set
/// after its idle M-cycle, and leaves the halted state as soon as one is, whatever the
/// master enable.
pub proof fn lemma_halt_idle(s: CpuView)
    requires
        s.halted,
        !s.enabling_ime,
        bus_wf(s.bus),
    ensures
        ({
            let t = step_spec(s);
            let b1 = cycles_spec(s.bus, 1);
            &&& b1.int_flags == 0 ==> t.halted && t.regs == s.regs
            &&& b1.int_flags != 0 ==> !t.halted
        }),
{
    let r = run_spec(s);
    lemma_handle_unfold(r);
    let x = r.bus.int_flags;
    if x == 0 {
        assert(0u8 & 0x01 == 0 && 0u8 & 0x02 == 0 && 0u8 & 0x04 == 0 && 0u8 & 0x08 == 0 && 0u8 & 0x10 == 0) by (bit_vector);
    }
}

proof fn lemma_fetch_frame(s: CpuView)
    ensures
        fetch_spec(s).ime == s.ime,
        fetch_spec(s).enabling_ime == s.enabling_ime,
        fetch_spec(s).halted == s.halted,
        fetch_spec(s).instruction == s.instruction,
        s.instruction.addr_mode == AddressMode::Imp ==> fetch_spec(s)
            == (CpuView { mem_dest: 0, dest_is_mem: false, ..s }),
{
    reveal(fetch_spec);
}

proof fn lemma_exec_ei(s: CpuView)
    requires
        s.instruction.ins_type == InstructionType::Ei,
    ensures
        execute_spec(s) == (CpuView { enabling_ime: true, ..s }),
{
    reveal(execute_spec);
}

/// `EI` does not enable interrupts by itself: after its step master enable is still off
/// and the delayed-enable latch is set.
pub proof fn lemma_ei_delays(s: CpuView)
    requires
        !s.halted,
        !s.ime,
        !s.enabling_ime,
        read_spec(s.bus, s.regs.pc) == 0xFB,
    ensures
        !step_spec(s).ime,
        step_spec(s).enabling_ime,
{
    let s1 = fetch_instruction_spec(s);
    assert(s1.instruction == decode_spec(0xFB));
    assert(s1.instruction.ins_type == InstructionType::Ei);
    lemma_fetch_frame(s1);
    lemma_exec_ei(fetch_spec(s1));
}

proof fn lemma_fetch_d16(s: CpuView)
    requires
        s.instruction.addr_mode == AddressMode::D16,
    ensures
        fetch_spec(s) == adv_pc(tick(CpuView { fetched_data: imm16(s), mem_dest: 0, dest_is_mem: false, ..s }, 2), 2),
{
    reveal(fetch_spec);
}

proof fn lemma_exec_call(s: CpuView)
    requires
        s.instruction.ins_type == InstructionType::Call,
    ensures
        execute_spec(s) == goto_spec(s, s.fetched_data, true),
{
    reveal(execute_spec);
}

proof fn lemma_exec_ret(s: CpuView)
    requires
        s.instruction.ins_type == InstructionType::Ret,
    ensures
        execute_spec(s) == ret_spec(s),
{
    reveal(execute_spec);
}

/// `CALL nn` followed, at `nn`, by `RET` comes back to the address after the call with SP
/// as it was, for a call and a target in ROM, stack bytes in working or high RAM, and
/// interrupts off.
pub proof fn lemma_call_ret(s: CpuView)
    requires
        bus_wf(s.bus),
        !s.halted,
        !s.ime,
        !s.enabling_ime,
        s.regs.pc <= 0x7FFC,
        read_spec(s.bus, s.regs.pc) == 0xCD,
        read16_spec(s.bus, (s.regs.pc + 1) as u16) <= 0x7FFF,
        read_spec(s.bus, read16_spec(s.bus, (s.regs.pc + 1) as u16)) == 0xC9,
        is_ram_address(s.regs.sp.wrapping_sub(1)),
        is_ram_address(s.regs.sp.wrapping_sub(2)),
    ensures
        step_spec(step_spec(s)).regs.pc == s.regs.pc + 3,
        step_spec(step_spec(s)).regs.sp == s.regs.sp,
{
    let pc = s.regs.pc;
    let sp = s.regs.sp;
    let nn = read16_spec(s.bus, (pc + 1) as u16);
    let ret = (pc + 3) as u16;
    // first step: the call
    let s1 = fetch_instruction_spec(s);
    assert(s1.instruction == decode_spec(0xCD));
    assert(s1.instruction.ins_type == InstructionType::Call && s1.instruction.addr_mode == AddressMode::D16
        && s1.instruction.cond_type == ConditionType::Always);
    lemma_cycles_frame(s.bus, 1);
    lemma_cycles_frame(s.bus, 2);
    lemma_cycles_add(s.bus, 1, 1);
    assert(read_spec(s1.bus, (pc + 1) as u16) == read_spec(s.bus, (pc + 1) as u16));
    assert(read_spec(cycles_spec(s1.bus, 1), (pc + 2) as u16) == read_spec(s.bus, (pc + 2) as u16));
    assert(imm16(s1) == nn);
    lemma_fetch_d16(s1);
    let f1 = fetch_spec(s1);
    assert(f1.regs.pc == ret && f1.regs.sp == sp && f1.fetched_data == nn);
    lemma_cycles_frame(s1.bus, 2);
    lemma_cycles_add(s.bus, 1, 2);
    assert(bus_wf(f1.bus));
    lemma_exec_call(f1);
    let t1 = tick(f1, 2);
    lemma_cycles_frame(f1.bus, 2);
    let p = push16_spec(t1, ret);
    let b1 = write_spec(t1.bus, sp.wrapping_sub(1), (ret / 256) as u8);
    lemma_ram_write_read(t1.bus, sp.wrapping_sub(1), (ret / 256) as u8, sp.wrapping_sub(1));
    lemma_ram_write_read(b1, sp.wrapping_sub(2), (ret % 256) as u8, sp.wrapping_sub(2));
    lemma_ram_write_read(b1, sp.wrapping_sub(2), (ret % 256) as u8, sp.wrapping_sub(1));
    assert(sp.wrapping_sub(1).wrapping_sub(1) == sp.wrapping_sub(2));
    assert(read_spec(p.bus, sp.wrapping_sub(2)) == (ret % 256) as u8);
    assert(read_spec(p.bus, sp.wrapping_sub(1)) == (ret / 256) as u8);
    assert(p.bus.rom == s.bus.rom);
    let e1 = tick(set_pc(p, nn), 1);
    assert(execute_spec(f1) == e1);
    lemma_cycles_frame(p.bus, 1);
    assert(step_spec(s) == e1);
    // second step: the return
    assert(read_spec(e1.bus, nn) == 0xC9);
    let s2 = fetch_instruction_spec(e1);
    assert(s2.instruction == decode_spec(0xC9));
    assert(s2.instruction.ins_type == InstructionType::Ret && s2.instruction.addr_mode == AddressMode::Imp
        && s2.instruction.cond_type == ConditionType::Always);
    lemma_cycles_frame(e1.bus, 1);
    lemma_fetch_frame(s2);
    let f2 = fetch_spec(s2);
    assert(f2.regs.sp == sp.wrapping_sub(2));
    assert(read_spec(f2.bus, sp.wrapping_sub(2)) == (ret % 256) as u8);
    assert(read_spec(f2.bus, sp.wrapping_sub(1)) == (ret / 256) as u8);
    lemma_exec_ret(f2);
    let q1 = tick(pop_state(f2), 1);
    lemma_cycles_frame(pop_state(f2).bus, 1);
    assert(sp.wrapping_sub(2).wrapping_add(1) == sp.wrapping_sub(1));
    assert(pop_value(q1) == (ret / 256) as u8);
    let q2 = tick(pop_state(q1), 1);
    assert(sp.wrapping_sub(1).wrapping_add(1) == sp);
    assert(q2.regs.sp == sp);
    let e2 = ret_spec(f2);
    assert(e2.regs.pc == ret);
    assert(step_spec(e1) == e2);
}

} // verus!
