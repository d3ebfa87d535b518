use vstd::prelude::*;
use crate::bus::{Bus, BusView, read_spec};

verus! {

/// The sprite-memory DMA stepper: copies 0xA0 bytes from `value * 0x100` into sprite
/// memory, one byte per M-cycle, after a start delay of two M-cycles.
#[derive(Clone, Copy)]
pub struct Dma {
    pub active: bool,
    pub byte: u8,
    pub value: u8,
    pub start_delay: u8,
}

impl Dma {
    /// The stepper right after a transfer from page `start` was triggered.
    pub open spec fn start_spec(start: u8) -> Dma {
        Dma { active: true, byte: 0, value: start, start_delay: 2 }
    }

    /// The bus after one DMA step.
    pub open spec fn step_spec(b: BusView) -> BusView {
        if !b.dma.active {
            b
        } else if b.dma.start_delay > 0 {
            BusView { dma: Dma { start_delay: (b.dma.start_delay - 1) as u8, ..b.dma }, ..b }
        } else {
            let v = read_spec(b, (b.dma.value as int * 256 + b.dma.byte as int) as u16);
            let next = (b.dma.byte + 1) as u8;
            BusView {
                oam: b.oam.update(b.dma.byte as int, v),
                dma: Dma { byte: next, active: next < 0xA0, ..b.dma },
                ..b
            }
        }
    }

    /// An idle stepper.
    pub fn new() -> (r: Self)
        ensures
            !r.active && r.byte == 0 && r.value == 0 && r.start_delay == 0,
    {
        Dma { active: false, byte: 0, value: 0, start_delay: 0 }
    }

    /// Starts a transfer from page `start`.
    pub fn start(&mut self, start: u8)
        ensures
            *final(self) == Dma::start_spec(start),
    {
        self.active = true;
        self.byte = 0;
        self.start_delay = 2;
        self.value = start;
    }

    /// Whether a transfer is running.
    pub fn is_trasferring(&self) -> (r: bool)
        ensures
            r == self.active,
    {
        self.active
    }

    /// One step of the transfer: waits out the start delay, then copies one byte.
    pub fn tick(bus: &mut Bus)
        requires
            old(bus).wf(),
        ensures
            final(bus).wf(),
            final(bus)@ == Dma::step_spec(old(bus)@),
    {
        if !bus.dma.active {
            return;
        }
        if bus.dma.start_delay > 0 {
            bus.dma.start_delay = bus.dma.start_delay - 1;
            return;
        }
        let src: u16 = bus.dma.value as u16 * 256 + bus.dma.byte as u16;
        let v = bus.read(src);
        let i = bus.dma.byte;
        bus.oam.set(i as usize, v);
        bus.dma.byte = i + 1;
        bus.dma.active = bus.dma.byte < 0xA0;
    }
}

} // verus!
