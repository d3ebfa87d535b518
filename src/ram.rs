use vstd::prelude::*;

verus! {

/// Working RAM (0xC000-0xDFFF) and high RAM (0xFF80-0xFFFE).
pub struct RAM {
    pub wram: Vec<u8>,
    pub hram: Vec<u8>,
}

impl RAM {
    pub open spec fn wf(&self) -> bool {
        self.wram@.len() == 0x2000 && self.hram@.len() == 0x80
    }

    /// Cleared working and high RAM.
    pub fn new() -> (r: Self)
        ensures
            r.wf(),
            r.wram@ == Seq::new(0x2000, |i: int| 0u8),
            r.hram@ == Seq::new(0x80, |i: int| 0u8),
    {
        let wram = vec![0u8; 0x2000];
        let hram = vec![0u8; 0x80];
        proof {
            assert(wram@ =~= Seq::new(0x2000, |i: int| 0u8));
            assert(hram@ =~= Seq::new(0x80, |i: int| 0u8));
        }
        RAM { wram, hram }
    }

    pub fn wram_read(&self, address: u16) -> (r: u8)
        requires
            self.wf(),
            0xC000 <= address <= 0xDFFF,
        ensures
            r == self.wram@[address - 0xC000],
    {
        self.wram[(address - 0xC000) as usize]
    }

    pub fn wram_write(&mut self, address: u16, value: u8)
        requires
            old(self).wf(),
            0xC000 <= address <= 0xDFFF,
        ensures
            final(self).wf(),
            final(self).hram@ == old(self).hram@,
            final(self).wram@ == old(self).wram@.update(address - 0xC000, value),
    {
        self.wram.set((address - 0xC000) as usize, value);
    }

    pub fn hram_read(&self, address: u16) -> (r: u8)
        requires
            self.wf(),
            0xFF80 <= address <= 0xFFFF,
        ensures
            r == self.hram@[address - 0xFF80],
    {
        self.hram[(address - 0xFF80) as usize]
    }

    pub fn hram_write(&mut self, address: u16, value: u8)
        requires
            old(self).wf(),
            0xFF80 <= address <= 0xFFFF,
        ensures
            final(self).wf(),
            final(self).wram@ == old(self).wram@,
            final(self).hram@ == old(self).hram@.update(address - 0xFF80, value),
    {
        self.hram.set((address - 0xFF80) as usize, value);
    }
}

} // verus!
