use vstd::prelude::*;

verus! {

/// First header byte covered by the header checksum.
pub const HEADER_START: usize = 0x0134;

/// Offset of the header checksum byte; the bytes before it, from `HEADER_START`, are summed.
pub const HEADER_CHECKSUM: usize = 0x014D;

/// The cartridge: the ROM image, read-only here, and its 8 KiB of external RAM.
pub struct Cart {
    pub rom: Vec<u8>,
    pub ram: Vec<u8>,
}

/// Sum of `s[k] + 1` over the header bytes `HEADER_START <= k < hi`.
pub open spec fn header_sum(s: Seq<u8>, hi: int) -> int
    decreases hi - HEADER_START,
{
    if hi <= HEADER_START as int {
        0
    } else {
        header_sum(s, hi - 1) + s[hi - 1] + 1
    }
}

/// The header checksum of a ROM image: the negated sum, modulo 256.
pub open spec fn header_checksum_spec(s: Seq<u8>) -> u8 {
    ((65536 - header_sum(s, HEADER_CHECKSUM as int)) % 256) as u8
}

/// Whether an image is long enough to hold a header and its checksum byte matches.
pub open spec fn checksum_matches_spec(s: Seq<u8>) -> bool {
    s.len() > HEADER_CHECKSUM && s[HEADER_CHECKSUM as int] == header_checksum_spec(s)
}

/// The byte a ROM image holds at `a`, or 0xFF past its end.
pub open spec fn rom_at(rom: Seq<u8>, a: int) -> u8 {
    if 0 <= a < rom.len() {
        rom[a]
    } else {
        0xFF
    }
}

proof fn lemma_header_sum_bounds(s: Seq<u8>, hi: int)
    requires
        hi <= s.len(),
    ensures
        0 <= header_sum(s, hi) <= 256 * (if hi > HEADER_START { hi - HEADER_START } else { 0 }),
    decreases hi - HEADER_START,
{
    if hi > HEADER_START as int {
        lemma_header_sum_bounds(s, hi - 1);
    }
}

impl Cart {
    /// An empty cartridge: no ROM, cleared RAM.
    pub fn new() -> (r: Self)
        ensures
            r.rom@.len() == 0,
            r.ram@ == Seq::new(0x2000, |i: int| 0u8),
    {
        let ram = vec![0u8; 0x2000];
        proof {
            assert(ram@ =~= Seq::new(0x2000, |i: int| 0u8));
        }
        Cart { rom: Vec::new(), ram }
    }

    /// A cartridge holding `rom`, with cleared RAM.
    pub fn from_rom(rom: Vec<u8>) -> (r: Self)
        ensures
            r.rom@ == rom@,
            r.ram@ == Seq::new(0x2000, |i: int| 0u8),
    {
        let ram = vec![0u8; 0x2000];
        proof {
            assert(ram@ =~= Seq::new(0x2000, |i: int| 0u8));
        }
        Cart { rom, ram }
    }

    /// Reads the ROM (0x0000-0x7FFF, 0xFF past the image's end) or the cartridge RAM
    /// (0xA000-0xBFFF).
    pub fn read(&self, address: u16) -> (r: u8)
        requires
            self.ram@.len() == 0x2000,
            address <= 0x7FFF || (0xA000 <= address <= 0xBFFF),
        ensures
            r == (if address <= 0x7FFF {
                rom_at(self.rom@, address as int)
            } else {
                self.ram@[address - 0xA000]
            }),
    {
        if address <= 0x7FFF {
            if (address as usize) < self.rom.len() {
                self.rom[address as usize]
            } else {
                0xFF
            }
        } else {
            self.ram[(address - 0xA000) as usize]
        }
    }

    /// Writes the cartridge RAM; a write to the ROM range changes nothing.
    pub fn write(&mut self, address: u16, data: u8)
        requires
            old(self).ram@.len() == 0x2000,
            address <= 0x7FFF || (0xA000 <= address <= 0xBFFF),
        ensures
            final(self).rom@ == old(self).rom@,
            final(self).ram@ == (if address <= 0x7FFF {
                old(self).ram@
            } else {
                old(self).ram@.update(address - 0xA000, data)
            }),
    {
        if address >= 0xA000 {
            self.ram.set((address - 0xA000) as usize, data);
        }
    }

    /// The 8-bit two's-complement checksum of the header bytes 0x0134-0x014C.
    pub fn header_checksum(data: &Vec<u8>) -> (r: u8)
        requires
            data@.len() > HEADER_CHECKSUM,
        ensures
            r == header_checksum_spec(data@),
    {
        let mut acc: u32 = 0;
        let mut i: usize = HEADER_START;
        while i < HEADER_CHECKSUM
            invariant
                HEADER_START <= i <= HEADER_CHECKSUM,
                data@.len() > HEADER_CHECKSUM,
                acc as int == header_sum(data@, i as int),
            decreases HEADER_CHECKSUM - i,
        {
            proof {
                lemma_header_sum_bounds(data@, i as int);
            }
            acc = acc + data[i] as u32 + 1;
            i = i + 1;
        }
        proof {
            lemma_header_sum_bounds(data@, HEADER_CHECKSUM as int);
        }
        ((65536 - acc) % 256) as u8
    }

    /// Whether the image holds a header whose checksum byte matches its contents.
    pub fn checksum_matches(data: &Vec<u8>) -> (r: bool)
        ensures
            r == checksum_matches_spec(data@),
    {
        if data.len() <= HEADER_CHECKSUM {
            false
        } else {
            data[HEADER_CHECKSUM] == Self::header_checksum(data)
        }
    }
}

} // verus!
