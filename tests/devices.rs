use gbcore::bus::Bus;
use gbcore::cart::Cart;
use gbcore::cpu::Cpu;
use gbcore::dbg::Dbg;
use gbcore::dma::Dma;
use gbcore::enums::{LCDMode, StatSrc};
use gbcore::emu::Emu;
use gbcore::io::{IO, LCD};
use gbcore::ram::RAM;
use gbcore::timer::Timer;

#[test]
fn memory_map_regions() {
    let mut rom = vec![0u8; 0x200];
    rom[0x0150] = 0x3C;
    let mut bus = Bus::new(Cart::from_rom(rom));
    assert_eq!(bus.read(0x0150), 0x3C);
    assert_eq!(bus.read(0x4000), 0xFF);
    bus.write(0x0150, 0x00);
    assert_eq!(bus.read(0x0150), 0x3C);
    for a in [0x8000u16, 0x9FFF, 0xA000, 0xBFFF, 0xC000, 0xDFFF, 0xFE00, 0xFE9F, 0xFF80, 0xFFFE] {
        bus.write(a, 0x5A);
        assert_eq!(bus.read(a), 0x5A);
    }
    bus.write(0xE000, 0x11);
    assert_eq!(bus.read(0xE000), 0);
    assert_eq!(bus.read(0xFEA0), 0);
    assert_eq!(bus.read(0xFF7F), 0xFF);
    bus.write(0xFFFF, 0x1F);
    assert_eq!(bus.read(0xFFFF), 0x1F);
    bus.write16(0xC010, 0xBEEF);
    assert_eq!(bus.read(0xC010), 0xEF);
    assert_eq!(bus.read(0xC011), 0xBE);
    assert_eq!(bus.read16(0xC010), 0xBEEF);
}

#[test]
fn dma_copies_into_sprite_memory() {
    let mut bus = Bus::new(Cart::new());
    for i in 0..0xA0u16 {
        bus.write(0xC000 + i, (i as u8) ^ 0x55);
    }
    bus.write(0xFF46, 0xC0);
    assert!(bus.dma.is_trasferring());
    assert_eq!(bus.read(0xFE00), 0xFF);
    bus.cycles(2 + 0xA0);
    assert!(!bus.dma.is_trasferring());
    for i in 0..0xA0u16 {
        assert_eq!(bus.read(0xFE00 + i), (i as u8) ^ 0x55);
    }
}

#[test]
fn dma_stepper_direct() {
    let mut d = Dma::new();
    assert!(!d.is_trasferring());
    d.start(0x12);
    assert!(d.is_trasferring());
    assert_eq!(d.value, 0x12);
    assert_eq!(d.start_delay, 2);
}

#[test]
fn serial_capture() {
    let mut cpu = Cpu::new(Cart::new());
    let mut dbg = Dbg::new();
    dbg.update(&mut cpu);
    assert!(dbg.msg.is_empty());
    cpu.bus.write(0xFF01, b'P');
    cpu.bus.write(0xFF02, 0x81);
    dbg.update(&mut cpu);
    assert_eq!(dbg.msg, vec![b'P']);
    assert_eq!(cpu.bus.read(0xFF02), 0);
}

#[test]
fn io_and_lcd_registers() {
    let mut bus = Bus::new(Cart::new());
    IO::write(&mut bus, 0xFF42, 0x33);
    assert_eq!(IO::read(&bus, 0xFF42), 0x33);
    assert_eq!(bus.lcd.scy, 0x33);
    let mut lcd = LCD::new();
    lcd.write(0xFF4B, 7);
    assert_eq!(lcd.read(0xFF4B), 7);
    lcd.write(0xFF41, 0x42);
    assert_eq!(lcd.get_lcds_mode(), LCDMode::Oam);
    assert!(lcd.stat_interrupt(StatSrc::Lyc));
    assert!(!lcd.stat_interrupt(StatSrc::Hblank));
    let io = IO::new();
    assert_eq!(io.serial_data, 0);
}

#[test]
fn ram_banks() {
    let mut ram = RAM::new();
    ram.wram_write(0xC123, 9);
    ram.hram_write(0xFF90, 8);
    assert_eq!(ram.wram_read(0xC123), 9);
    assert_eq!(ram.hram_read(0xFF90), 8);
}

#[test]
fn timer_registers() {
    let mut t = Timer::new();
    t.write(0xFF06, 0x20);
    t.write(0xFF07, 0x04);
    assert_eq!(t.read(0xFF06), 0x20);
    assert_eq!(t.read(0xFF07), 0x04);
    t.div = 0x03FF;
    assert!(!t.tick());
    assert_eq!(t.read(0xFF05), 1);
    assert_eq!(t.ticks, 1);
}

#[test]
fn cart_ram_and_reads() {
    let mut cart = Cart::from_rom(vec![1, 2, 3]);
    assert_eq!(cart.read(2), 3);
    assert_eq!(cart.read(3), 0xFF);
    cart.write(0xA001, 0x44);
    assert_eq!(cart.read(0xA001), 0x44);
}

#[test]
fn emu_turns() {
    let mut rom = vec![0u8; 0x8000];
    rom[0x101] = 0xD3;
    let mut emu = Emu::new(Cart::from_rom(rom));
    assert_eq!(emu.turn(false).unwrap(), true);
    assert_eq!(emu.cpu.registers.pc, 0x0101);
    emu.paused = true;
    assert_eq!(emu.turn(false).unwrap(), true);
    assert_eq!(emu.cpu.registers.pc, 0x0101);
    emu.paused = false;
    assert!(emu.turn(false).is_err());
    assert!(!emu.running);
    let mut emu = Emu::new(Cart::new());
    assert_eq!(emu.turn(true).unwrap(), false);
    assert!(emu.die);
}
