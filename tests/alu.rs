use gbcore::cart::Cart;
use gbcore::common::{bit, set_bit};
use gbcore::cpu::Cpu;
use gbcore::enums::{AddressMode, ConditionType, InstructionType, RegisterType};
use gbcore::instruction::Instruction;
use gbcore::registers::Registers;

fn run(program: &[u8], setup: impl Fn(&mut Cpu)) -> Cpu {
    let mut rom = vec![0u8; 0x8000];
    for (i, b) in program.iter().enumerate() {
        rom[0x100 + i] = *b;
    }
    let mut cpu = Cpu::new(Cart::from_rom(rom));
    cpu.int_master_enabled = false;
    setup(&mut cpu);
    cpu.step().unwrap();
    cpu
}

#[test]
fn add_a_carries_out_of_both_nibbles() {
    let cpu = run(&[0x80], |c| {
        c.registers.a = 0x3A;
        c.registers.b = 0xC6;
        c.registers.f = 0;
    });
    assert_eq!(cpu.registers.a, 0x00);
    assert_eq!(cpu.registers.f, 0xB0);
}

#[test]
fn adc_adds_the_carry() {
    let cpu = run(&[0xCE, 0x0F], |c| {
        c.registers.a = 0xE1;
        c.registers.f = 0x10;
    });
    assert_eq!(cpu.registers.a, 0xF1);
    assert_eq!(cpu.registers.f, 0x20);
}

#[test]
fn sub_equal_values_sets_zero() {
    let cpu = run(&[0x90], |c| {
        c.registers.a = 0x3E;
        c.registers.b = 0x3E;
    });
    assert_eq!(cpu.registers.a, 0);
    assert_eq!(cpu.registers.f, 0xC0);
}

#[test]
fn sbc_borrows_through_carry() {
    let cpu = run(&[0xDE, 0x3A], |c| {
        c.registers.a = 0x3B;
        c.registers.f = 0x10;
    });
    assert_eq!(cpu.registers.a, 0x00);
    assert_eq!(cpu.registers.f, 0xC0);
    let cpu = run(&[0x9B], |c| {
        c.registers.a = 0x3B;
        c.registers.e = 0x4F;
        c.registers.f = 0x10;
    });
    assert_eq!(cpu.registers.a, 0xEB);
    assert_eq!(cpu.registers.f, 0x70);
}

#[test]
fn cp_keeps_a() {
    let cpu = run(&[0xFE, 0x40], |c| {
        c.registers.a = 0x3C;
        c.registers.f = 0;
    });
    assert_eq!(cpu.registers.a, 0x3C);
    assert_eq!(cpu.registers.f, 0x50);
}

#[test]
fn logic_flags() {
    let cpu = run(&[0xE6, 0x38], |c| c.registers.a = 0x5A);
    assert_eq!(cpu.registers.a, 0x18);
    assert_eq!(cpu.registers.f, 0x20);
    let cpu = run(&[0xF6, 0x00], |c| c.registers.a = 0x00);
    assert_eq!(cpu.registers.a, 0x00);
    assert_eq!(cpu.registers.f, 0x80);
    let cpu = run(&[0xEE, 0x0F], |c| c.registers.a = 0xFF);
    assert_eq!(cpu.registers.a, 0xF0);
    assert_eq!(cpu.registers.f, 0x00);
}

#[test]
fn add_hl_keeps_zero() {
    let cpu = run(&[0x09], |c| {
        c.set_register(RegisterType::Hl, 0x8A23);
        c.set_register(RegisterType::Bc, 0x0605);
        c.registers.f = 0x80;
    });
    assert_eq!(cpu.read_register(RegisterType::Hl), 0x9028);
    assert_eq!(cpu.registers.f, 0xA0);
    let cpu = run(&[0x29], |c| {
        c.set_register(RegisterType::Hl, 0x8A23);
        c.registers.f = 0x00;
    });
    assert_eq!(cpu.read_register(RegisterType::Hl), 0x1446);
    assert_eq!(cpu.registers.f, 0x30);
}

#[test]
fn add_sp_signed() {
    let cpu = run(&[0xE8, 0x02], |c| {
        c.registers.sp = 0xFFF8;
        c.registers.f = 0xC0;
    });
    assert_eq!(cpu.registers.sp, 0xFFFA);
    assert_eq!(cpu.registers.f, 0x00);
    assert_eq!(cpu.bus.timer.ticks, 16);
    let cpu = run(&[0xE8, 0xFF], |c| {
        c.registers.sp = 0x0001;
    });
    assert_eq!(cpu.registers.sp, 0x0000);
    assert_eq!(cpu.registers.f, 0x30);
}

#[test]
fn ld_hl_sp_relative() {
    let cpu = run(&[0xF8, 0x02], |c| {
        c.registers.sp = 0xFFF8;
    });
    assert_eq!(cpu.read_register(RegisterType::Hl), 0xFFFA);
    assert_eq!(cpu.registers.f, 0x00);
}

#[test]
fn inc_dec_memory_at_hl() {
    let cpu = run(&[0x34], |c| {
        c.set_register(RegisterType::Hl, 0xC000);
        c.bus.write(0xC000, 0x0F);
        c.registers.f = 0x10;
    });
    assert_eq!(cpu.bus.read(0xC000), 0x10);
    assert_eq!(cpu.registers.f, 0x30);
    let cpu = run(&[0x35], |c| {
        c.set_register(RegisterType::Hl, 0xC000);
        c.bus.write(0xC000, 0x01);
        c.registers.f = 0x00;
    });
    assert_eq!(cpu.bus.read(0xC000), 0x00);
    assert_eq!(cpu.registers.f, 0xC0);
}

#[test]
fn daa_after_addition_and_subtraction() {
    let cpu = run(&[0x27], |c| {
        c.registers.a = 0x7D;
        c.registers.f = 0x00;
    });
    assert_eq!(cpu.registers.a, 0x83);
    assert_eq!(cpu.registers.f, 0x00);
    let cpu = run(&[0x27], |c| {
        c.registers.a = 0x0F;
        c.registers.f = 0x60;
    });
    assert_eq!(cpu.registers.a, 0x09);
    assert_eq!(cpu.registers.f, 0x40);
    let cpu = run(&[0x27], |c| {
        c.registers.a = 0x9A;
        c.registers.f = 0x00;
    });
    assert_eq!(cpu.registers.a, 0x00);
    assert_eq!(cpu.registers.f, 0x90);
}

#[test]
fn cpl_scf_ccf() {
    let cpu = run(&[0x2F], |c| {
        c.registers.a = 0x35;
        c.registers.f = 0x00;
    });
    assert_eq!(cpu.registers.a, 0xCA);
    assert_eq!(cpu.registers.f, 0x60);
    let cpu = run(&[0x37], |c| c.registers.f = 0x60);
    assert_eq!(cpu.registers.f, 0x10);
    let cpu = run(&[0x3F], |c| c.registers.f = 0x70);
    assert_eq!(cpu.registers.f, 0x00);
}

#[test]
fn accumulator_rotates() {
    let cpu = run(&[0x07], |c| {
        c.registers.a = 0x85;
        c.registers.f = 0x80;
    });
    assert_eq!(cpu.registers.a, 0x0B);
    assert_eq!(cpu.registers.f, 0x10);
    let cpu = run(&[0x0F], |c| c.registers.a = 0x01);
    assert_eq!(cpu.registers.a, 0x80);
    assert_eq!(cpu.registers.f, 0x10);
    let cpu = run(&[0x17], |c| {
        c.registers.a = 0x95;
        c.registers.f = 0x10;
    });
    assert_eq!(cpu.registers.a, 0x2B);
    assert_eq!(cpu.registers.f, 0x10);
    let cpu = run(&[0x1F], |c| {
        c.registers.a = 0x81;
        c.registers.f = 0x00;
    });
    assert_eq!(cpu.registers.a, 0x40);
    assert_eq!(cpu.registers.f, 0x10);
}

#[test]
fn prefixed_rotates_and_shifts() {
    let cpu = run(&[0xCB, 0x10], |c| {
        c.registers.b = 0x80;
        c.registers.f = 0x00;
    });
    assert_eq!(cpu.registers.b, 0x00);
    assert_eq!(cpu.registers.f, 0x90);
    let cpu = run(&[0xCB, 0x2F], |c| c.registers.a = 0x8A);
    assert_eq!(cpu.registers.a, 0xC5);
    assert_eq!(cpu.registers.f, 0x00);
    let cpu = run(&[0xCB, 0x37], |c| c.registers.a = 0xF1);
    assert_eq!(cpu.registers.a, 0x1F);
    assert_eq!(cpu.registers.f, 0x00);
    let cpu = run(&[0xCB, 0x3F], |c| c.registers.a = 0x01);
    assert_eq!(cpu.registers.a, 0x00);
    assert_eq!(cpu.registers.f, 0x90);
    let cpu = run(&[0xCB, 0x21], |c| c.registers.c = 0xFF);
    assert_eq!(cpu.registers.c, 0xFE);
    assert_eq!(cpu.registers.f, 0x10);
}

#[test]
fn prefixed_bit_res_set() {
    let cpu = run(&[0xCB, 0x7C], |c| {
        c.registers.h = 0x7F;
        c.registers.f = 0x10;
    });
    assert_eq!(cpu.registers.f, 0xB0);
    let cpu = run(&[0xCB, 0x86], |c| {
        c.set_register(RegisterType::Hl, 0xC010);
        c.bus.write(0xC010, 0xFF);
    });
    assert_eq!(cpu.bus.read(0xC010), 0xFE);
    assert_eq!(cpu.bus.timer.ticks, 16);
    let cpu = run(&[0xCB, 0xFF], |c| c.registers.a = 0x00);
    assert_eq!(cpu.registers.a, 0x80);
}

#[test]
fn pop_af_clears_low_nibble() {
    let cpu = run(&[0xF1], |c| {
        c.registers.sp = 0xC000;
        c.bus.write(0xC000, 0xFF);
        c.bus.write(0xC001, 0x12);
    });
    assert_eq!(cpu.registers.a, 0x12);
    assert_eq!(cpu.registers.f, 0xF0);
    assert_eq!(cpu.registers.sp, 0xC002);
}

#[test]
fn push_writes_high_then_low() {
    let cpu = run(&[0xC5], |c| {
        c.set_register(RegisterType::Bc, 0xABCD);
    });
    assert_eq!(cpu.registers.sp, 0xFFFC);
    assert_eq!(cpu.bus.read(0xFFFD), 0xAB);
    assert_eq!(cpu.bus.read(0xFFFC), 0xCD);
    assert_eq!(cpu.bus.timer.ticks, 16);
}

#[test]
fn rst_calls_fixed_address() {
    let cpu = run(&[0xEF], |_| {});
    assert_eq!(cpu.registers.pc, 0x0028);
    assert_eq!(cpu.bus.read16(0xFFFC), 0x0101);
}

#[test]
fn loads_through_high_page_and_hl_increment() {
    let cpu = run(&[0xE0, 0x80], |c| c.registers.a = 0x42);
    assert_eq!(cpu.bus.read(0xFF80), 0x42);
    let cpu = run(&[0x22], |c| {
        c.set_register(RegisterType::Hl, 0xC000);
        c.registers.a = 0x99;
    });
    assert_eq!(cpu.bus.read(0xC000), 0x99);
    assert_eq!(cpu.read_register(RegisterType::Hl), 0xC001);
    let cpu = run(&[0x08, 0x00, 0xC1], |c| c.registers.sp = 0x1234);
    assert_eq!(cpu.bus.read16(0xC100), 0x1234);
}

#[test]
fn decoder_table_entries() {
    let i = Instruction::instruction_by_opcode(0x41);
    assert_eq!(i.ins_type, InstructionType::Ld);
    assert_eq!(i.addr_mode, AddressMode::Rr);
    assert_eq!(i.reg1, RegisterType::B);
    assert_eq!(i.reg2, RegisterType::C);
    let i = Instruction::instruction_by_opcode(0xFF);
    assert_eq!(i.ins_type, InstructionType::Rst);
    assert_eq!(i.param, Some(0x38));
    let i = Instruction::instruction_by_opcode(0xC2);
    assert_eq!(i.ins_type, InstructionType::Jp);
    assert_eq!(i.cond_type, ConditionType::Nz);
    let i = Instruction::instruction_by_opcode(0xCB);
    assert_eq!(i.ins_type, InstructionType::Cb);
    let undefined = [0xD3u8, 0xDB, 0xDD, 0xE3, 0xE4, 0xEB, 0xEC, 0xED, 0xF4, 0xFC, 0xFD];
    for op in 0..=255u8 {
        let i = Instruction::instruction_by_opcode(op);
        assert_eq!(i.ins_type == InstructionType::Undefined, undefined.contains(&op));
    }
}

#[test]
fn register_pairs() {
    let mut cpu = Cpu::new(Cart::new());
    cpu.set_register(RegisterType::Af, 0x12FF);
    assert_eq!(cpu.registers.a, 0x12);
    assert_eq!(cpu.registers.f, 0xF0);
    cpu.set_register(RegisterType::De, 0xBEEF);
    assert_eq!(cpu.read_register_8bits(RegisterType::D), 0xBE);
    assert_eq!(cpu.read_register(RegisterType::E), 0xEF);
    cpu.set_register(RegisterType::Hl, 0xC123);
    cpu.set_register_8bits(RegisterType::Hl, 0x5A);
    assert_eq!(cpu.read_register_8bits(RegisterType::Hl), 0x5A);
    assert_eq!(cpu.read_register(RegisterType::Unset), 0);
    let r = Registers::new();
    assert_eq!(r.pc, 0);
    assert!(!r.flag_z() && !r.flag_n() && !r.flag_h() && !r.flag_c());
}

#[test]
fn bit_helpers() {
    assert!(bit(0x80, 7));
    assert!(!bit(0x7F, 7));
    assert_eq!(set_bit(0x00, 3, true), 0x08);
    assert_eq!(set_bit(0xFF, 0, false), 0xFE);
}
