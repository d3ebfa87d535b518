use vstd::prelude::*;
use crate::enums::{LCDMode, StatSrc};

verus! {

/// The serial port registers: data (0xFF01) and control (0xFF02).
#[derive(Clone, Copy)]
pub struct IO {
    pub serial_data: u8,
    pub serial_control: u8,
}

/// The display controller's registers, 0xFF40-0xFF4B.
#[derive(Clone, Copy)]
pub struct LCD {
    pub lcdc: u8,
    pub lcds: u8,
    pub scy: u8,
    pub scx: u8,
    pub ly: u8,
    pub lyc: u8,
    pub dma: u8,
    pub bgp: u8,
    pub obp0: u8,
    pub obp1: u8,
    pub wy: u8,
    pub wx: u8,
}

impl IO {
    /// Both serial registers zero.
    pub fn new() -> (r: Self)
        ensures
            r.serial_data == 0 && r.serial_control == 0,
    {
        IO { serial_data: 0, serial_control: 0 }
    }
}

impl LCD {
    /// The register at `address`.
    pub open spec fn read_spec(self, address: u16) -> u8 {
        let o = address - 0xFF40;
        if o == 0 {
            self.lcdc
        } else if o == 1 {
            self.lcds
        } else if o == 2 {
            self.scy
        } else if o == 3 {
            self.scx
        } else if o == 4 {
            self.ly
        } else if o == 5 {
            self.lyc
        } else if o == 6 {
            self.dma
        } else if o == 7 {
            self.bgp
        } else if o == 8 {
            self.obp0
        } else if o == 9 {
            self.obp1
        } else if o == 10 {
            self.wy
        } else {
            self.wx
        }
    }

    /// The registers after writing `value` at `address`.
    pub open spec fn write_spec(self, address: u16, value: u8) -> LCD {
        let o = address - 0xFF40;
        if o == 0 {
            LCD { lcdc: value, ..self }
        } else if o == 1 {
            LCD { lcds: value, ..self }
        } else if o == 2 {
            LCD { scy: value, ..self }
        } else if o == 3 {
            LCD { scx: value, ..self }
        } else if o == 4 {
            LCD { ly: value, ..self }
        } else if o == 5 {
            LCD { lyc: value, ..self }
        } else if o == 6 {
            LCD { dma: value, ..self }
        } else if o == 7 {
            LCD { bgp: value, ..self }
        } else if o == 8 {
            LCD { obp0: value, ..self }
        } else if o == 9 {
            LCD { obp1: value, ..self }
        } else if o == 10 {
            LCD { wy: value, ..self }
        } else {
            LCD { wx: value, ..self }
        }
    }

    /// The mode in the low two bits of the status register.
    pub fn get_lcds_mode(&self) -> (r: LCDMode)
        ensures
            r == (if self.lcds % 4 == 0 {
                LCDMode::Hblank
            } else if self.lcds % 4 == 1 {
                LCDMode::Vblank
            } else if self.lcds % 4 == 2 {
                LCDMode::Oam
            } else {
                LCDMode::Xfer
            }),
    {
        match self.lcds % 4 {
            0 => LCDMode::Hblank,
            1 => LCDMode::Vblank,
            2 => LCDMode::Oam,
            _ => LCDMode::Xfer,
        }
    }

    /// Whether a status interrupt source is selected: bits 3 to 6 of the status register
    /// for H-blank, V-blank, sprite search and the LY match.
    pub fn stat_interrupt(&self, src: StatSrc) -> (r: bool)
        ensures
            r == ((self.lcds as int / (match src {
                StatSrc::Hblank => 8int,
                StatSrc::Vblank => 16int,
                StatSrc::Oam => 32int,
                StatSrc::Lyc => 64int,
            })) % 2 == 1),
    {
        let d: u8 = match src {
            StatSrc::Hblank => 8,
            StatSrc::Vblank => 16,
            StatSrc::Oam => 32,
            StatSrc::Lyc => 64,
        };
        (self.lcds / d) % 2 == 1
    }

    /// The power-on register values.
    pub fn new() -> (r: Self)
        ensures
            r.lcdc == 0x91 && r.lcds == 0 && r.scy == 0 && r.scx == 0 && r.ly == 0 && r.lyc == 0
                && r.dma == 0 && r.bgp == 0xFC && r.obp0 == 0xFF && r.obp1 == 0xFF && r.wy == 0
                && r.wx == 0,
    {
        LCD { lcdc: 0x91, lcds: 0, scy: 0, scx: 0, ly: 0, lyc: 0, dma: 0, bgp: 0xFC, obp0: 0xFF, obp1: 0xFF, wy: 0, wx: 0 }
    }

    pub fn read(&self, address: u16) -> (r: u8)
        requires
            0xFF40 <= address <= 0xFF4B,
        ensures
            r == self.read_spec(address),
    {
        match address - 0xFF40 {
            0 => self.lcdc,
            1 => self.lcds,
            2 => self.scy,
            3 => self.scx,
            4 => self.ly,
            5 => self.lyc,
            6 => self.dma,
            7 => self.bgp,
            8 => self.obp0,
            9 => self.obp1,
            10 => self.wy,
            _ => self.wx,
        }
    }

    pub fn write(&mut self, address: u16, value: u8)
        requires
            0xFF40 <= address <= 0xFF4B,
        ensures
            *final(self) == old(self).write_spec(address, value),
    {
        match address - 0xFF40 {
            0 => self.lcdc = value,
            1 => self.lcds = value,
            2 => self.scy = value,
            3 => self.scx = value,
            4 => self.ly = value,
            5 => self.lyc = value,
            6 => self.dma = value,
            7 => self.bgp = value,
            8 => self.obp0 = value,
            9 => self.obp1 = value,
            10 => self.wy = value,
            _ => self.wx = value,
        }
    }
}

} // verus!
