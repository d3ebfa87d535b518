use vstd::prelude::*;
use crate::cart::{Cart, rom_at};
use crate::dma::Dma;
use crate::enums::InterruptType;
use crate::io::{IO, LCD};
use crate::ram::RAM;
use crate::timer::Timer;

verus! {

/// Everything the address space reaches, as mathematical values.
pub struct BusView {
    pub rom: Seq<u8>,
    pub cart_ram: Seq<u8>,
    pub vram: Seq<u8>,
    pub wram: Seq<u8>,
    pub hram: Seq<u8>,
    pub oam: Seq<u8>,
    pub io: IO,
    pub lcd: LCD,
    pub timer: Timer,
    pub dma: Dma,
    /// Interrupt-request register (0xFF0F).
    pub int_flags: u8,
    /// Interrupt-enable register (0xFFFF).
    pub ie: u8,
}

/// The memory bus and the devices it owns.
pub struct Bus {
    pub cart: Cart,
    pub ram: RAM,
    pub vram: Vec<u8>,
    pub oam: Vec<u8>,
    pub io: IO,
    pub lcd: LCD,
    pub timer: Timer,
    pub dma: Dma,
    pub interrupt_flags: u8,
    pub ie_register: u8,
}

impl View for Bus {
    type V = BusView;

    open spec fn view(&self) -> BusView {
        BusView {
            rom: self.cart.rom@,
            cart_ram: self.cart.ram@,
            vram: self.vram@,
            wram: self.ram.wram@,
            hram: self.ram.hram@,
            oam: self.oam@,
            io: self.io,
            lcd: self.lcd,
            timer: self.timer,
            dma: self.dma,
            int_flags: self.interrupt_flags,
            ie: self.ie_register,
        }
    }
}

/// The request bit of an interrupt source.
pub open spec fn interrupt_mask(t: InterruptType) -> u8 {
    match t {
        InterruptType::Vblank => 0x01,
        InterruptType::LcdStat => 0x02,
        InterruptType::Timer => 0x04,
        InterruptType::Serial => 0x08,
        InterruptType::Joypad => 0x10,
    }
}

/// Sizes of the memories, and a running DMA transfer stays inside sprite memory.
pub open spec fn bus_wf(b: BusView) -> bool {
    &&& b.cart_ram.len() == 0x2000
    &&& b.vram.len() == 0x2000
    &&& b.wram.len() == 0x2000
    &&& b.hram.len() == 0x80
    &&& b.oam.len() == 0xA0
    &&& (b.dma.active ==> b.dma.byte < 0xA0)
}

/// A read in the I/O page 0xFF00-0xFF7F; unmapped registers read as 0xFF.
pub open spec fn io_read_spec(b: BusView, a: u16) -> u8 {
    if a == 0xFF01 {
        b.io.serial_data
    } else if a == 0xFF02 {
        b.io.serial_control
    } else if 0xFF04 <= a <= 0xFF07 {
        b.timer.read_spec(a)
    } else if a == 0xFF0F {
        b.int_flags
    } else if 0xFF40 <= a <= 0xFF4B {
        b.lcd.read_spec(a)
    } else {
        0xFF
    }
}

/// The byte read at address `a`.
pub open spec fn read_spec(b: BusView, a: u16) -> u8 {
    if a <= 0x7FFF {
        rom_at(b.rom, a as int)
    } else if a <= 0x9FFF {
        b.vram[a - 0x8000]
    } else if a <= 0xBFFF {
        b.cart_ram[a - 0xA000]
    } else if a <= 0xDFFF {
        b.wram[a - 0xC000]
    } else if a <= 0xFDFF {
        0
    } else if a <= 0xFE9F {
        if b.dma.active {
            0xFF
        } else {
            b.oam[a - 0xFE00]
        }
    } else if a <= 0xFEFF {
        0
    } else if a <= 0xFF7F {
        io_read_spec(b, a)
    } else if a == 0xFFFF {
        b.ie
    } else {
        b.hram[a - 0xFF80]
    }
}

/// A write in the I/O page; a write to 0xFF46 also starts a DMA transfer.
pub open spec fn io_write_spec(b: BusView, a: u16, v: u8) -> BusView {
    if a == 0xFF01 {
        BusView { io: IO { serial_data: v, ..b.io }, ..b }
    } else if a == 0xFF02 {
        BusView { io: IO { serial_control: v, ..b.io }, ..b }
    } else if 0xFF04 <= a <= 0xFF07 {
        BusView { timer: b.timer.write_spec(a, v), ..b }
    } else if a == 0xFF0F {
        BusView { int_flags: v, ..b }
    } else if 0xFF40 <= a <= 0xFF4B {
        if a == 0xFF46 {
            BusView { lcd: b.lcd.write_spec(a, v), dma: Dma::start_spec(v), ..b }
        } else {
            BusView { lcd: b.lcd.write_spec(a, v), ..b }
        }
    } else {
        b
    }
}

/// The bus after writing `v` at `a`. Writes to ROM, the mirror and unused regions, and
/// to sprite memory during DMA, change nothing.
pub open spec fn write_spec(b: BusView, a: u16, v: u8) -> BusView {
    if a <= 0x7FFF {
        b
    } else if a <= 0x9FFF {
        BusView { vram: b.vram.update(a - 0x8000, v), ..b }
    } else if a <= 0xBFFF {
        BusView { cart_ram: b.cart_ram.update(a - 0xA000, v), ..b }
    } else if a <= 0xDFFF {
        BusView { wram: b.wram.update(a - 0xC000, v), ..b }
    } else if a <= 0xFDFF {
        b
    } else if a <= 0xFE9F {
        if b.dma.active {
            b
        } else {
            BusView { oam: b.oam.update(a - 0xFE00, v), ..b }
        }
    } else if a <= 0xFEFF {
        b
    } else if a <= 0xFF7F {
        io_write_spec(b, a, v)
    } else if a == 0xFFFF {
        BusView { ie: v, ..b }
    } else {
        BusView { hram: b.hram.update(a - 0xFF80, v), ..b }
    }
}

/// Little-endian word at `a`.
pub open spec fn read16_spec(b: BusView, a: u16) -> u16 {
    (read_spec(b, a) as int + 256 * read_spec(b, a.wrapping_add(1)) as int) as u16
}

/// The bus after writing a little-endian word: the high byte at `a + 1` first, then the
/// low byte at `a`.
pub open spec fn write16_spec(b: BusView, a: u16, v: u16) -> BusView {
    write_spec(write_spec(b, a.wrapping_add(1), (v / 256) as u8), a, (v % 256) as u8)
}

/// One underlying clock tick: the timer advances and an overflow requests a Timer interrupt.
pub open spec fn clock_tick(b: BusView) -> BusView {
    let (t, overflow) = b.timer.tick_spec();
    BusView {
        timer: t,
        int_flags: if overflow { b.int_flags | interrupt_mask(InterruptType::Timer) } else { b.int_flags },
        ..b
    }
}

/// One M-cycle: four ticks, then one DMA step.
pub open spec fn mcycle(b: BusView) -> BusView {
    Dma::step_spec(clock_tick(clock_tick(clock_tick(clock_tick(b)))))
}

/// The bus after `n` M-cycles.
pub open spec fn cycles_spec(b: BusView, n: nat) -> BusView
    decreases n,
{
    if n == 0 {
        b
    } else {
        mcycle(cycles_spec(b, (n - 1) as nat))
    }
}

/// `m` M-cycles followed by `n` more are `m + n` M-cycles.
pub proof fn lemma_cycles_add(b: BusView, m: nat, n: nat)
    ensures
        cycles_spec(cycles_spec(b, m), n) == cycles_spec(b, m + n),
    decreases n,
{
    if n > 0 {
        lemma_cycles_add(b, m, (n - 1) as nat);
        assert(cycles_spec(b, m + n) == mcycle(cycles_spec(b, (m + n - 1) as nat)));
    }
}

/// Whether `a` lies in working RAM or high RAM, which only the processor writes.
pub open spec fn is_ram_address(a: u16) -> bool {
    (0xC000 <= a <= 0xDFFF) || (0xFF80 <= a <= 0xFFFE)
}

/// The clock leaves the memories other than sprite memory, and the enable register, alone.
pub proof fn lemma_cycles_frame(b: BusView, n: nat)
    requires
        bus_wf(b),
    ensures
        bus_wf(cycles_spec(b, n)),
        cycles_spec(b, n).rom == b.rom,
        cycles_spec(b, n).cart_ram == b.cart_ram,
        cycles_spec(b, n).vram == b.vram,
        cycles_spec(b, n).wram == b.wram,
        cycles_spec(b, n).hram == b.hram,
        cycles_spec(b, n).ie == b.ie,
        cycles_spec(b, n).io == b.io,
        cycles_spec(b, n).lcd == b.lcd,
        forall|a: u16| (a <= 0x7FFF || is_ram_address(a)) ==> #[trigger] read_spec(cycles_spec(b, n), a) == read_spec(b, a),
    decreases n,
{
    if n > 0 {
        lemma_cycles_frame(b, (n - 1) as nat);
    }
}

impl Bus {
    pub open spec fn wf(&self) -> bool {
        bus_wf(self@)
    }

    /// A bus over `cart` with cleared memories and devices at their power-on values.
    pub fn new(cart: Cart) -> (r: Self)
        requires
            cart.ram@.len() == 0x2000,
        ensures
            r.wf(),
            r@.rom == cart.rom@,
            r@.cart_ram == cart.ram@,
            r@.int_flags == 0,
            r@.ie == 0,
            !r@.dma.active,
    {
        Bus {
            cart,
            ram: RAM::new(),
            vram: vec![0u8; 0x2000],
            oam: vec![0u8; 0xA0],
            io: IO::new(),
            lcd: LCD::new(),
            timer: Timer::new(),
            dma: Dma::new(),
            interrupt_flags: 0,
            ie_register: 0,
        }
    }

    /// Reads the byte at `address`, decoding it to its device.
    pub fn read(&self, address: u16) -> (r: u8)
        requires
            self.wf(),
        ensures
            r == read_spec(self@, address),
    {
        if address <= 0x7FFF {
            self.cart.read(address)
        } else if address <= 0x9FFF {
            self.vram[(address - 0x8000) as usize]
        } else if address <= 0xBFFF {
            self.cart.read(address)
        } else if address <= 0xDFFF {
            self.ram.wram_read(address)
        } else if address <= 0xFDFF {
            0
        } else if address <= 0xFE9F {
            if self.dma.is_trasferring() {
                0xFF
            } else {
                self.oam[(address - 0xFE00) as usize]
            }
        } else if address <= 0xFEFF {
            0
        } else if address <= 0xFF7F {
            IO::read(self, address)
        } else if address == 0xFFFF {
            self.ie_register
        } else {
            self.ram.hram_read(address)
        }
    }

    /// Writes `value` at `address`, decoding it to its device.
    pub fn write(&mut self, address: u16, value: u8)
        requires
            old(self).wf(),
        ensures
            final(self).wf(),
            final(self)@ == write_spec(old(self)@, address, value),
    {
        if address <= 0x7FFF {
        } else if address <= 0x9FFF {
            self.vram.set((address - 0x8000) as usize, value);
        } else if address <= 0xBFFF {
            self.cart.write(address, value);
        } else if address <= 0xDFFF {
            self.ram.wram_write(address, value);
        } else if address <= 0xFDFF {
        } else if address <= 0xFE9F {
            if !self.dma.is_trasferring() {
                self.oam.set((address - 0xFE00) as usize, value);
            }
        } else if address <= 0xFEFF {
        } else if address <= 0xFF7F {
            IO::write(self, address, value);
        } else if address == 0xFFFF {
            self.ie_register = value;
        } else {
            self.ram.hram_write(address, value);
        }
    }

    /// Reads the little-endian word at `address`.
    pub fn read16(&self, address: u16) -> (r: u16)
        requires
            self.wf(),
        ensures
            r == read16_spec(self@, address),
    {
        let lo = self.read(address) as u16;
        let hi = self.read(address.wrapping_add(1)) as u16;
        lo + 256 * hi
    }

    /// Writes a little-endian word at `address`.
    pub fn write16(&mut self, address: u16, data: u16)
        requires
            old(self).wf(),
        ensures
            final(self).wf(),
            final(self)@ == write16_spec(old(self)@, address, data),
    {
        self.write(address.wrapping_add(1), (data / 256) as u8);
        self.write(address, (data % 256) as u8);
    }

    /// Advances the clock by `n` M-cycles of four ticks each, stepping DMA after each.
    pub fn cycles(&mut self, n: u64)
        requires
            old(self).wf(),
        ensures
            final(self).wf(),
            final(self)@ == cycles_spec(old(self)@, n as nat),
    {
        let mut i: u64 = 0;
        while i < n
            invariant
                i <= n,
                self.wf(),
                self@ == cycles_spec(old(self)@, i as nat),
            decreases n - i,
        {
            let mut k: u8 = 0;
            while k < 4
                invariant
                    k <= 4,
                    self.wf(),
                    self@ == (if k == 0 {
                        cycles_spec(old(self)@, i as nat)
                    } else if k == 1 {
                        clock_tick(cycles_spec(old(self)@, i as nat))
                    } else if k == 2 {
                        clock_tick(clock_tick(cycles_spec(old(self)@, i as nat)))
                    } else if k == 3 {
                        clock_tick(clock_tick(clock_tick(cycles_spec(old(self)@, i as nat))))
                    } else {
                        clock_tick(clock_tick(clock_tick(clock_tick(cycles_spec(old(self)@, i as nat)))))
                    }),
                decreases 4 - k,
            {
                if self.timer.tick() {
                    self.interrupt_flags = self.interrupt_flags | 0x04;
                }
                k = k + 1;
            }
            Dma::tick(self);
            i = i + 1;
        }
    }
}

impl IO {
    /// Reads a register of the I/O page; unmapped ones read as 0xFF.
    pub fn read(bus: &Bus, address: u16) -> (r: u8)
        requires
            0xFF00 <= address <= 0xFF7F,
        ensures
            r == io_read_spec(bus@, address),
    {
        if address == 0xFF01 {
            bus.io.serial_data
        } else if address == 0xFF02 {
            bus.io.serial_control
        } else if 0xFF04 <= address && address <= 0xFF07 {
            bus.timer.read(address)
        } else if address == 0xFF0F {
            bus.interrupt_flags
        } else if 0xFF40 <= address && address <= 0xFF4B {
            bus.lcd.read(address)
        } else {
            0xFF
        }
    }

    /// Writes a register of the I/O page; writes to unmapped ones change nothing.
    pub fn write(bus: &mut Bus, address: u16, value: u8)
        requires
            old(bus).wf(),
            0xFF00 <= address <= 0xFF7F,
        ensures
            final(bus).wf(),
            final(bus)@ == io_write_spec(old(bus)@, address, value),
    {
        if address == 0xFF01 {
            bus.io.serial_data = value;
        } else if address == 0xFF02 {
            bus.io.serial_control = value;
        } else if 0xFF04 <= address && address <= 0xFF07 {
            bus.timer.write(address, value);
        } else if address == 0xFF0F {
            bus.interrupt_flags = value;
        } else if 0xFF40 <= address && address <= 0xFF4B {
            bus.lcd.write(address, value);
            if address == 0xFF46 {
                bus.dma.start(value);
            }
        }
    }
}

} // verus!
