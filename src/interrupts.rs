use vstd::prelude::*;
use crate::bus::{Bus, BusView, interrupt_mask};
use crate::cpu::{Cpu, CpuView};
use crate::enums::InterruptType;
use crate::processor::set_pc;
use crate::stack::{Stack, push16_spec};

verus! {

/// Handler address of an interrupt source.
pub open spec fn vector(t: InterruptType) -> u16 {
    match t {
        InterruptType::Vblank => 0x40,
        InterruptType::LcdStat => 0x48,
        InterruptType::Timer => 0x50,
        InterruptType::Serial => 0x58,
        InterruptType::Joypad => 0x60,
    }
}

/// Whether a source is both requested and enabled.
pub open spec fn is_pending(b: BusView, t: InterruptType) -> bool {
    b.int_flags & interrupt_mask(t) != 0 && b.ie & interrupt_mask(t) != 0
}

/// Servicing a source: push PC, jump to its handler, clear its request bit, leave the
/// halted state and clear master enable.
pub open spec fn service_spec(s: CpuView, t: InterruptType) -> CpuView {
    let s1 = set_pc(push16_spec(s, s.regs.pc), vector(t));
    CpuView {
        bus: BusView { int_flags: s1.bus.int_flags & !interrupt_mask(t), ..s1.bus },
        halted: false,
        ime: false,
        ..s1
    }
}

/// The interrupt check: the first pending source in priority order (V-blank, LCD status,
/// Timer, Serial, Joypad) is serviced; at most one per call.
#[verifier::opaque]
pub open spec fn handle_spec(s: CpuView) -> CpuView {
    if is_pending(s.bus, InterruptType::Vblank) {
        service_spec(s, InterruptType::Vblank)
    } else if is_pending(s.bus, InterruptType::LcdStat) {
        service_spec(s, InterruptType::LcdStat)
    } else if is_pending(s.bus, InterruptType::Timer) {
        service_spec(s, InterruptType::Timer)
    } else if is_pending(s.bus, InterruptType::Serial) {
        service_spec(s, InterruptType::Serial)
    } else if is_pending(s.bus, InterruptType::Joypad) {
        service_spec(s, InterruptType::Joypad)
    } else {
        s
    }
}

fn map_interrupt_type_to_u8(t: InterruptType) -> (r: u8)
    ensures
        r == interrupt_mask(t),
{
    match t {
        InterruptType::Vblank => 0x01,
        InterruptType::LcdStat => 0x02,
        InterruptType::Timer => 0x04,
        InterruptType::Serial => 0x08,
        InterruptType::Joypad => 0x10,
    }
}

/// Sets the request bit of a source.
pub fn request(bus: &mut Bus, t: InterruptType)
    requires
        old(bus).wf(),
    ensures
        final(bus).wf(),
        final(bus)@ == (BusView { int_flags: old(bus)@.int_flags | interrupt_mask(t), ..old(bus)@ }),
{
    bus.interrupt_flags = bus.interrupt_flags | map_interrupt_type_to_u8(t);
}

fn process(cpu: &mut Cpu, address: u16)
    requires
        old(cpu).wf(),
    ensures
        final(cpu).wf(),
        final(cpu)@ == set_pc(push16_spec(old(cpu)@, old(cpu)@.regs.pc), address),
{
    let pc = cpu.registers.pc;
    Stack::push16(cpu, pc);
    cpu.registers.pc = address;
}

/// Services `t` when it is pending; returns whether it was.
fn check(cpu: &mut Cpu, address: u16, t: InterruptType) -> (r: bool)
    requires
        old(cpu).wf(),
        address == vector(t),
    ensures
        final(cpu).wf(),
        r == is_pending(old(cpu)@.bus, t),
        r ==> final(cpu)@ == service_spec(old(cpu)@, t),
        !r ==> *final(cpu) == *old(cpu),
{
    let it = map_interrupt_type_to_u8(t);
    if cpu.bus.interrupt_flags & it != 0 && cpu.bus.ie_register & it != 0 {
        process(cpu, address);
        cpu.bus.interrupt_flags = cpu.bus.interrupt_flags & !it;
        cpu.halted = false;
        cpu.int_master_enabled = false;
        true
    } else {
        false
    }
}

/// Services the highest-priority source that is both requested and enabled, if any.
pub fn handle(cpu: &mut Cpu)
    requires
        old(cpu).wf(),
    ensures
        final(cpu).wf(),
        final(cpu)@ == handle_spec(old(cpu)@),
{
    proof {
        reveal(handle_spec);
    }
    if check(cpu, 0x40, InterruptType::Vblank) {
    } else if check(cpu, 0x48, InterruptType::LcdStat) {
    } else if check(cpu, 0x50, InterruptType::Timer) {
    } else if check(cpu, 0x58, InterruptType::Serial) {
    } else if check(cpu, 0x60, InterruptType::Joypad) {
    }
}

} // verus!
