use vstd::prelude::*;

verus! {

/// The divider and timer registers and the total tick count.
#[derive(Clone, Copy)]
pub struct Timer {
    /// Free-running divider; its high byte is the DIV register.
    pub div: u16,
    /// Timer counter (TIMA).
    pub tima: u8,
    /// Timer modulo (TMA).
    pub tma: u8,
    /// Timer control (TAC): bit 2 enables, bits 1-0 select the divider bit.
    pub tac: u8,
    /// Underlying ticks since power-on.
    pub ticks: u64,
}

/// The divider bit watched for a given TAC: select 00, 01, 10, 11 watch bits 9, 3, 5, 7.
pub open spec fn watched_bit(tac: u8) -> u16 {
    if tac % 4 == 0 {
        9
    } else if tac % 4 == 1 {
        3
    } else if tac % 4 == 2 {
        5
    } else {
        7
    }
}

/// Whether bit `b` of `v` is set.
pub open spec fn bit16(v: u16, b: u16) -> bool {
    (v >> b) & 1u16 == 1u16
}

impl Timer {
    /// Whether the timer counts (TAC bit 2).
    pub open spec fn enabled(self) -> bool {
        (self.tac / 4) % 2 == 1
    }

    /// Whether one tick from this state makes the counter advance: the watched divider
    /// bit falls from 1 to 0 while the timer is enabled.
    pub open spec fn counts_on_tick(self) -> bool {
        let next = self.div.wrapping_add(1);
        self.enabled() && bit16(self.div, watched_bit(self.tac)) && !bit16(next, watched_bit(self.tac))
    }

    /// The state after one underlying tick, and whether the counter overflowed. On overflow
    /// the counter is reloaded from the modulo register.
    pub open spec fn tick_spec(self) -> (Timer, bool) {
        let next = Timer { div: self.div.wrapping_add(1), ticks: self.ticks.wrapping_add(1), ..self };
        if self.counts_on_tick() {
            if self.tima == 0xFF {
                (Timer { tima: self.tma, ..next }, true)
            } else {
                (Timer { tima: (self.tima + 1) as u8, ..next }, false)
            }
        } else {
            (next, false)
        }
    }

    /// Value read at one of the timer addresses 0xFF04-0xFF07.
    pub open spec fn read_spec(self, address: u16) -> u8 {
        if address == 0xFF04 {
            (self.div / 256) as u8
        } else if address == 0xFF05 {
            self.tima
        } else if address == 0xFF06 {
            self.tma
        } else if address == 0xFF07 {
            self.tac
        } else {
            0xFF
        }
    }

    /// State after a write at one of the timer addresses: a write to DIV clears the divider.
    pub open spec fn write_spec(self, address: u16, value: u8) -> Timer {
        if address == 0xFF04 {
            Timer { div: 0, ..self }
        } else if address == 0xFF05 {
            Timer { tima: value, ..self }
        } else if address == 0xFF06 {
            Timer { tma: value, ..self }
        } else if address == 0xFF07 {
            Timer { tac: value, ..self }
        } else {
            self
        }
    }

    /// All registers and the tick count zero.
    pub fn new() -> (r: Self)
        ensures
            r.div == 0 && r.tima == 0 && r.tma == 0 && r.tac == 0 && r.ticks == 0,
    {
        Timer { div: 0, tima: 0, tma: 0, tac: 0, ticks: 0 }
    }

    /// Advances by one underlying tick; returns whether the counter overflowed, in which
    /// case a Timer interrupt is due.
    pub fn tick(&mut self) -> (r: bool)
        ensures
            (*final(self), r) == old(self).tick_spec(),
    {
        let prev = self.div;
        let next = self.div.wrapping_add(1);
        self.div = next;
        self.ticks = self.ticks.wrapping_add(1);
        let sel: u16 = if self.tac % 4 == 0 {
            9
        } else if self.tac % 4 == 1 {
            3
        } else if self.tac % 4 == 2 {
            5
        } else {
            7
        };
        let falling = (prev >> sel) & 1 == 1 && !((next >> sel) & 1 == 1);
        if falling && (self.tac / 4) % 2 == 1 {
            if self.tima == 0xFF {
                self.tima = self.tma;
                return true;
            }
            self.tima = self.tima + 1;
        }
        false
    }

    /// Reads DIV (the divider's high byte), TIMA, TMA or TAC.
    pub fn read(&self, address: u16) -> (r: u8)
        ensures
            r == self.read_spec(address),
    {
        if address == 0xFF04 {
            (self.div / 256) as u8
        } else if address == 0xFF05 {
            self.tima
        } else if address == 0xFF06 {
            self.tma
        } else if address == 0xFF07 {
            self.tac
        } else {
            0xFF
        }
    }

    /// Writes TIMA, TMA or TAC directly; any write to DIV resets the divider to zero.
    pub fn write(&mut self, address: u16, value: u8)
        ensures
            *final(self) == old(self).write_spec(address, value),
    {
        if address == 0xFF04 {
            self.div = 0;
        } else if address == 0xFF05 {
            self.tima = value;
        } else if address == 0xFF06 {
            self.tma = value;
        } else if address == 0xFF07 {
            self.tac = value;
        }
    }
}

} // verus!
