use gbcore::bus::Bus;
use gbcore::cart::Cart;
use gbcore::cpu::Cpu;
use gbcore::enums::{InstructionType, InterruptType, RegisterType};
use gbcore::interrupts::request;
use gbcore::stack::Stack;

/// An engine at power-on whose ROM holds `program` from 0x0100 and `extra` bytes at
/// their addresses.
fn machine(program: &[u8], extra: &[(usize, u8)]) -> Cpu {
    let mut rom = vec![0u8; 0x8000];
    for (i, b) in program.iter().enumerate() {
        rom[0x100 + i] = *b;
    }
    for (a, b) in extra {
        rom[*a] = *b;
    }
    Cpu::new(Cart::from_rom(rom))
}

#[test]
fn power_on_state() {
    let cpu = machine(&[], &[]);
    assert_eq!(cpu.registers.pc, 0x0100);
    assert_eq!(cpu.registers.sp, 0xFFFE);
    assert_eq!(cpu.registers.a, 0x01);
    assert_eq!(cpu.registers.f, 0xB0);
    assert_eq!(cpu.read_register(RegisterType::Bc), 0x0013);
    assert_eq!(cpu.read_register(RegisterType::De), 0x00D8);
    assert_eq!(cpu.read_register(RegisterType::Hl), 0x014D);
    assert!(cpu.int_master_enabled);
}

#[test]
fn xor_a_with_itself_clears_a() {
    for a in [0x00u8, 0x01, 0x5A, 0xFF] {
        let mut cpu = machine(&[0xAF], &[]);
        cpu.registers.a = a;
        cpu.registers.f = 0x70;
        cpu.step().unwrap();
        assert_eq!(cpu.registers.a, 0);
        assert_eq!(cpu.registers.f, 0x80);
    }
}

#[test]
fn push_then_pop_restores_word_and_sp() {
    for sp in [0xDFF0u16, 0xFFFE, 0xC002] {
        for v in [0x0000u16, 0xBEEF, 0xFFFF, 0x1234] {
            let mut cpu = machine(&[], &[]);
            cpu.registers.sp = sp;
            Stack::push16(&mut cpu, v);
            assert_eq!(cpu.registers.sp, sp.wrapping_sub(2));
            assert_eq!(Stack::pop16(&mut cpu), v);
            assert_eq!(cpu.registers.sp, sp);
        }
    }
}

#[test]
fn inc_bc_wraps_and_keeps_flags() {
    for f in [0x00u8, 0x80, 0xF0] {
        let mut cpu = machine(&[0x03], &[]);
        cpu.set_register(RegisterType::Bc, 0xFFFF);
        cpu.registers.f = f;
        cpu.step().unwrap();
        assert_eq!(cpu.read_register(RegisterType::Bc), 0x0000);
        assert_eq!(cpu.registers.f, f);
    }
}

#[test]
fn dec_borrowing_from_bit_four_sets_half_carry() {
    let mut cpu = machine(&[0x05], &[]);
    cpu.registers.b = 0x10;
    cpu.registers.f = 0x10;
    cpu.step().unwrap();
    assert_eq!(cpu.registers.b, 0x0F);
    assert!(cpu.registers.flag_h());
    assert!(cpu.registers.flag_n());
    assert!(cpu.registers.flag_c());
    assert!(!cpu.registers.flag_z());

    let mut cpu = machine(&[0x0D], &[]);
    cpu.registers.c = 0x00;
    cpu.registers.f = 0x00;
    cpu.step().unwrap();
    assert_eq!(cpu.registers.c, 0xFF);
    assert_eq!(cpu.registers.f, 0x60);
}

#[test]
fn call_then_ret_returns_after_call() {
    let mut cpu = machine(&[0xCD, 0x00, 0x02], &[(0x0200, 0xC9)]);
    cpu.step().unwrap();
    assert_eq!(cpu.registers.pc, 0x0200);
    assert_eq!(cpu.registers.sp, 0xFFFC);
    assert_eq!(cpu.bus.timer.ticks, 24);
    cpu.step().unwrap();
    assert_eq!(cpu.registers.pc, 0x0103);
    assert_eq!(cpu.registers.sp, 0xFFFE);
}

#[test]
fn vblank_is_serviced_before_timer() {
    let mut cpu = machine(&[0x00], &[]);
    cpu.bus.write(0xFFFF, 0x05);
    request(&mut cpu.bus, InterruptType::Timer);
    request(&mut cpu.bus, InterruptType::Vblank);
    cpu.step().unwrap();
    assert_eq!(cpu.registers.pc, 0x0040);
    assert_eq!(cpu.bus.interrupt_flags & 0x01, 0);
    assert_ne!(cpu.bus.interrupt_flags & 0x04, 0);
    assert!(!cpu.int_master_enabled);
    assert_eq!(cpu.registers.sp, 0xFFFC);
    assert_eq!(cpu.bus.read16(0xFFFC), 0x0101);
}

#[test]
fn ei_takes_effect_after_next_instruction() {
    let mut cpu = machine(&[0xFB, 0x00, 0x00], &[]);
    cpu.int_master_enabled = false;
    cpu.step().unwrap();
    assert!(!cpu.int_master_enabled);
    assert!(cpu.enabling_ime);
    cpu.step().unwrap();
    assert!(cpu.int_master_enabled);
    assert_eq!(cpu.registers.pc, 0x0102);
}

#[test]
fn ei_then_di_leaves_interrupts_off() {
    let mut cpu = machine(&[0xFB, 0xF3, 0x00], &[]);
    cpu.int_master_enabled = false;
    cpu.step().unwrap();
    cpu.step().unwrap();
    cpu.step().unwrap();
    assert!(!cpu.int_master_enabled);
}

#[test]
fn jp_absolute() {
    let mut cpu = machine(&[0xC3, 0x34, 0x12], &[]);
    cpu.step().unwrap();
    assert_eq!(cpu.registers.pc, 0x1234);
    assert_eq!(cpu.bus.timer.ticks, 16);
}

#[test]
fn jr_backwards_when_not_zero() {
    let mut cpu = machine(&[0x00, 0x20, 0xFD], &[]);
    cpu.registers.f = 0x00;
    cpu.step().unwrap();
    cpu.step().unwrap();
    assert_eq!(cpu.registers.pc, 0x0100);
    cpu.registers.f = 0x80;
    cpu.step().unwrap();
    cpu.step().unwrap();
    assert_eq!(cpu.registers.pc, 0x0103);
}

#[test]
fn timer_overflow_reloads_and_requests() {
    let mut cpu = machine(&[], &[]);
    cpu.bus.write(0xFF05, 0xFF);
    cpu.bus.write(0xFF06, 0x42);
    cpu.bus.write(0xFF07, 0b101);
    cpu.bus.timer.div = 0x000F;
    cpu.bus.interrupt_flags = 0;
    cpu.bus.cycles(1);
    assert_eq!(cpu.bus.read(0xFF05), 0x42);
    assert_ne!(cpu.bus.interrupt_flags & 0x04, 0);
}

#[test]
fn timer_counts_on_falling_edge_only_when_enabled() {
    let mut cpu = machine(&[], &[]);
    cpu.bus.write(0xFF05, 0x10);
    cpu.bus.write(0xFF07, 0b001);
    cpu.bus.timer.div = 0x000F;
    cpu.bus.cycles(1);
    assert_eq!(cpu.bus.read(0xFF05), 0x10);
    cpu.bus.write(0xFF07, 0b101);
    cpu.bus.timer.div = 0x000F;
    cpu.bus.cycles(1);
    assert_eq!(cpu.bus.read(0xFF05), 0x11);
    assert_eq!(cpu.bus.timer.div, 0x0013);
}

#[test]
fn div_write_resets_divider() {
    let mut cpu = machine(&[], &[]);
    assert_eq!(cpu.bus.read(0xFF04), 0xAB);
    cpu.bus.write(0xFF04, 0x77);
    assert_eq!(cpu.bus.timer.div, 0);
    assert_eq!(cpu.bus.read(0xFF04), 0);
}

fn header_rom(fix: bool) -> Vec<u8> {
    let mut rom = vec![0u8; 0x150];
    for i in 0x134..0x14D {
        rom[i] = (i * 7) as u8;
    }
    let mut x: u8 = 0;
    for i in 0x134..0x14D {
        x = x.wrapping_sub(rom[i]).wrapping_sub(1);
    }
    rom[0x14D] = if fix { x } else { x.wrapping_add(1) };
    rom
}

#[test]
fn header_checksum_flags_only_mismatch() {
    assert!(Cart::checksum_matches(&header_rom(true)));
    assert!(!Cart::checksum_matches(&header_rom(false)));
    assert!(!Cart::checksum_matches(&vec![0u8; 0x100]));
    assert_eq!(Cart::header_checksum(&vec![0u8; 0x150]), 0xE7);
}

#[test]
fn halt_waits_until_a_request() {
    let mut cpu = machine(&[0x76, 0x00], &[]);
    cpu.int_master_enabled = false;
    cpu.step().unwrap();
    assert!(cpu.halted);
    assert_eq!(cpu.registers.pc, 0x0101);
    for _ in 0..5 {
        cpu.step().unwrap();
        assert!(cpu.halted);
        assert_eq!(cpu.registers.pc, 0x0101);
    }
    cpu.bus.write(0xFF0F, 0x04);
    cpu.step().unwrap();
    assert!(!cpu.halted);
    assert_eq!(cpu.registers.pc, 0x0101);
    cpu.step().unwrap();
    assert_eq!(cpu.registers.pc, 0x0102);
}

#[test]
fn undefined_opcode_is_fatal() {
    let mut cpu = machine(&[0xD3], &[]);
    let f = cpu.step().unwrap_err();
    assert_eq!(f.pc, 0x0100);
    assert_eq!(f.opcode, 0xD3);
    assert_eq!(f.kind, InstructionType::Undefined);
}

#[test]
fn stop_is_fatal() {
    let mut cpu = machine(&[0x00, 0x10], &[]);
    cpu.step().unwrap();
    let f = cpu.step().unwrap_err();
    assert_eq!(f.pc, 0x0101);
    assert_eq!(f.opcode, 0x10);
    assert_eq!(f.kind, InstructionType::Stop);
}

#[test]
fn empty_bus_has_power_on_devices() {
    let bus = Bus::new(Cart::new());
    assert_eq!(bus.read(0x0000), 0xFF);
    assert_eq!(bus.read(0xFF40), 0x91);
    assert_eq!(bus.read(0xFF0F), 0);
}
