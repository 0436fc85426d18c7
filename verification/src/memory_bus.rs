//! The memory bus: owns every byte storage region and routes each 16-bit
//! address to exactly one cell. The map, whose boundaries are part of the
//! contract:
//!
//! | range           | region                  | access                      |
//! |-----------------|-------------------------|-----------------------------|
//! | 0x0000..=0x7FFF | program ROM             | read, write tolerated       |
//! | 0x8000..=0x9FFF | video tile RAM          | read/write                  |
//! | 0xA000..=0xBFFF | external RAM            | read/write                  |
//! | 0xC000..=0xDFFF | working RAM             | read/write                  |
//! | 0xE000..=0xFDFF | working RAM mirror      | aliases 0xC000..=0xDDFF     |
//! | 0xFE00..=0xFE9F | sprite attribute table  | read/write                  |
//! | 0xFEA0..=0xFEFF | reserved                | reads 0, writes ignored     |
//! | 0xFF00..=0xFF7F | unhandled I/O           | reads 0, writes ignored     |
//! | 0xFF80..=0xFFFF | high/zero-page RAM      | read/write                  |
//!
//! Writes into the ROM window are accepted into the backing array: the window
//! is loaded once before execution and the relaxation is deliberate (and
//! tested), so that fixture bytes can be poked directly.

use vstd::prelude::*;

use crate::gpu::{GPU, zero_bytes};

verus! {

/// True of every address whose cell has backing storage: everything outside
/// the reserved hole 0xFEA0..=0xFEFF and the unhandled I/O window
/// 0xFF00..=0xFF7F.
pub open spec fn backed(address: u16) -> bool {
    !(0xFEA0 <= address && address < 0xFF80)
}

/// The canonical address of a cell: an address in the working-RAM mirror
/// window stands for the working-RAM address 0x2000 below it; every other
/// address stands for itself. Two addresses share a cell exactly when their
/// canonical addresses are equal.
pub open spec fn canon(address: u16) -> u16 {
    if 0xE000 <= address && address < 0xFE00 {
        (address - 0x2000) as u16
    } else {
        address
    }
}

/// The storage region an address falls in; dispatch is computed once per
/// address and shared by reads, writes and mutable access, so the three
/// operations can never disagree about a boundary.
#[derive(Clone, Copy, PartialEq, Eq, Structural, Debug)]
enum Region {
    Rom,
    VideoRam,
    ExternalRam,
    WorkRam,
    WorkRamMirror,
    SpriteTable,
    Reserved,
    UnhandledIo,
    HighRam,
}

spec fn spec_region_of(address: u16) -> Region {
    if address < 0x8000 {
        Region::Rom
    } else if address < 0xA000 {
        Region::VideoRam
    } else if address < 0xC000 {
        Region::ExternalRam
    } else if address < 0xE000 {
        Region::WorkRam
    } else if address < 0xFE00 {
        Region::WorkRamMirror
    } else if address < 0xFEA0 {
        Region::SpriteTable
    } else if address < 0xFF00 {
        Region::Reserved
    } else if address < 0xFF80 {
        Region::UnhandledIo
    } else {
        Region::HighRam
    }
}

fn region_of(address: u16) -> (r: Region)
    ensures
        r == spec_region_of(address),
{
    if address < 0x8000 {
        Region::Rom
    } else if address < 0xA000 {
        Region::VideoRam
    } else if address < 0xC000 {
        Region::ExternalRam
    } else if address < 0xE000 {
        Region::WorkRam
    } else if address < 0xFE00 {
        Region::WorkRamMirror
    } else if address < 0xFEA0 {
        Region::SpriteTable
    } else if address < 0xFF00 {
        Region::Reserved
    } else if address < 0xFF80 {
        Region::UnhandledIo
    } else {
        Region::HighRam
    }
}

/// The bus: ROM window, external RAM, working RAM, high RAM, and the video
/// region's tile RAM and sprite attribute table.
pub struct MemoryBus {
    rom: Vec<u8>,
    eram: Vec<u8>,
    wram: Vec<u8>,
    hram: Vec<u8>,
    gpu: GPU,
}

impl MemoryBus {
    /// Every region has its fixed size.
    pub closed spec fn wf(self) -> bool {
        &&& self.rom@.len() == 0x8000
        &&& self.eram@.len() == 0x2000
        &&& self.wram@.len() == 0x2000
        &&& self.hram@.len() == 0x80
        &&& self.gpu.wf()
    }

    /// The byte every address reads as: the owning region's cell, or 0 for
    /// the reserved and unhandled-I/O windows.
    pub closed spec fn spec_read(self, address: u16) -> u8
        recommends
            self.wf(),
    {
        match spec_region_of(address) {
            Region::Rom => self.rom@[address as int],
            Region::VideoRam => self.gpu.ram@[address - 0x8000],
            Region::ExternalRam => self.eram@[address - 0xA000],
            Region::WorkRam => self.wram@[address - 0xC000],
            Region::WorkRamMirror => self.wram@[address - 0xE000],
            Region::SpriteTable => self.gpu.oam@[address - 0xFE00],
            Region::Reserved => 0,
            Region::UnhandledIo => 0,
            Region::HighRam => self.hram@[address - 0xFF80],
        }
    }

    /// The little-endian word at an address: low byte first. The high byte's
    /// address wraps at the top of the address space.
    pub open spec fn spec_read_word(self, address: u16) -> u16
        recommends
            self.wf(),
    {
        (self.spec_read(address) + 256 * self.spec_read(address.wrapping_add(1))) as u16
    }

    /// The byte each address reads as after the cell shared by `address` (and
    /// its mirror alias, if any) is set to `value`; a write to an unbacked
    /// address changes nothing.
    pub open spec fn spec_written(self, address: u16, value: u8, b: u16) -> u8
        recommends
            self.wf(),
    {
        if backed(address) && backed(b) && canon(b) == canon(address) {
            value
        } else {
            self.spec_read(b)
        }
    }

    /// Builds the bus with all storage cleared, then performs the documented
    /// power-on writes into the I/O window; the map discards them (and the
    /// one high-RAM write stores zero), so every address still reads 0.
    pub fn new() -> (r: MemoryBus)
        ensures
            r.wf(),
            forall|a: u16| r.spec_read(a) == 0,
    {
        let mut bus = MemoryBus {
            rom: zero_bytes(0x8000),
            eram: zero_bytes(0x2000),
            wram: zero_bytes(0x2000),
            hram: zero_bytes(0x80),
            gpu: GPU::new(),
        };
        bus.write_byte(0xFF05, 0x00);
        bus.write_byte(0xFF06, 0x00);
        bus.write_byte(0xFF07, 0x00);
        bus.write_byte(0xFF10, 0x80);
        bus.write_byte(0xFF11, 0xBF);
        bus.write_byte(0xFF12, 0xF3);
        bus.write_byte(0xFF14, 0xBF);
        bus.write_byte(0xFF16, 0x3F);
        bus.write_byte(0xFF17, 0x00);
        bus.write_byte(0xFF19, 0xBF);
        bus.write_byte(0xFF1A, 0x7F);
        bus.write_byte(0xFF1B, 0xFF);
        bus.write_byte(0xFF1C, 0xBF);
        bus.write_byte(0xFF1B, 0xFF);
        bus.write_byte(0xFF1C, 0x9F);
        bus.write_byte(0xFF1E, 0xBF);
        bus.write_byte(0xFF20, 0xFF);
        bus.write_byte(0xFF21, 0x00);
        bus.write_byte(0xFF22, 0x00);
        bus.write_byte(0xFF23, 0xBF);
        bus.write_byte(0xFF24, 0x77);
        bus.write_byte(0xFF25, 0xF3);
        bus.write_byte(0xFF26, 0xF0);
        bus.write_byte(0xFF40, 0x91);
        bus.write_byte(0xFF42, 0x00);
        bus.write_byte(0xFF43, 0x00);
        bus.write_byte(0xFF45, 0x00);
        bus.write_byte(0xFF47, 0xFC);
        bus.write_byte(0xFF48, 0xFF);
        bus.write_byte(0xFF49, 0xFF);
        bus.write_byte(0xFF4A, 0x00);
        bus.write_byte(0xFFFF, 0x00);
        bus
    }

    /// Bulk-fills the ROM window from the given bytes, starting at address 0:
    /// input beyond the window's capacity is ignored, and cells past the
    /// input's end keep their previous contents (zero on a fresh bus).
    pub fn load(&mut self, data: &[u8])
        requires
            old(self).wf(),
        ensures
            final(self).wf(),
            forall|a: u16|
                final(self).spec_read(a) == (if (a as int) < loaded_len(data@.len()) {
                    data@[a as int]
                } else {
                    old(self).spec_read(a)
                }),
    {
        let n: usize = if data.len() < 0x8000 {
            data.len()
        } else {
            0x8000
        };
        let mut i: usize = 0;
        while i < n
            invariant
                old(self).wf(),
                self.wf(),
                n == loaded_len(data@.len()),
                n <= data@.len(),
                i <= n,
                self.eram == old(self).eram,
                self.wram == old(self).wram,
                self.hram == old(self).hram,
                self.gpu == old(self).gpu,
                forall|j: int| 0 <= j < i ==> self.rom@[j] == data@[j],
                forall|j: int| i <= j < 0x8000 ==> self.rom@[j] == old(self).rom@[j],
            decreases n - i,
        {
            self.rom[i] = data[i];
            i = i + 1;
        }
    }

    /// The little-endian 16-bit value at an address: the byte there is the
    /// low half, the byte one above (wrapping at the top of the address
    /// space) the high half.
    pub fn read_word(&self, address: u16) -> (r: u16)
        requires
            self.wf(),
        ensures
            r == self.spec_read_word(address),
    {
        let low = self.read_byte(address);
        let high = self.read_byte(address.wrapping_add(1));
        (low as u16) + 256 * (high as u16)
    }

    /// Reads the byte an address maps to; total over all 65536 addresses.
    pub fn read_byte(&self, address: u16) -> (r: u8)
        requires
            self.wf(),
        ensures
            r == self.spec_read(address),
    {
        match region_of(address) {
            Region::Rom => self.rom[address as usize],
            Region::VideoRam => self.gpu.ram[(address - 0x8000) as usize],
            Region::ExternalRam => self.eram[(address - 0xA000) as usize],
            Region::WorkRam => self.wram[(address - 0xC000) as usize],
            Region::WorkRamMirror => self.wram[(address - 0xE000) as usize],
            Region::SpriteTable => self.gpu.oam[(address - 0xFE00) as usize],
            Region::Reserved => 0,
            Region::UnhandledIo => 0,
            Region::HighRam => self.hram[(address - 0xFF80) as usize],
        }
    }

    /// Writes a byte into the cell the address maps to; a write into the
    /// reserved or unhandled-I/O windows is silently discarded.
    pub fn write_byte(&mut self, address: u16, value: u8)
        requires
            old(self).wf(),
        ensures
            final(self).wf(),
            forall|b: u16| final(self).spec_read(b) == old(self).spec_written(address, value, b),
            !backed(address) ==> *final(self) == *old(self),
    {
        match region_of(address) {
            Region::Rom => {
                self.rom[address as usize] = value;
            },
            Region::VideoRam => {
                self.gpu.ram[(address - 0x8000) as usize] = value;
            },
            Region::ExternalRam => {
                self.eram[(address - 0xA000) as usize] = value;
            },
            Region::WorkRam => {
                self.wram[(address - 0xC000) as usize] = value;
            },
            Region::WorkRamMirror => {
                self.wram[(address - 0xE000) as usize] = value;
            },
            Region::SpriteTable => {
                self.gpu.oam[(address - 0xFE00) as usize] = value;
            },
            Region::Reserved => {},
            Region::UnhandledIo => {},
            Region::HighRam => {
                self.hram[(address - 0xFF80) as usize] = value;
            },
        }
    }

    /// Exclusive access to the byte cell an address maps to, for
    /// read-modify-write instructions. An address without a backing cell has
    /// no byte to lend out, so such an address is excluded by contract: it
    /// would mean an address-map defect, never a recoverable condition.
    pub fn get_mut_byte(&mut self, address: u16) -> (r: &mut u8)
        requires
            old(self).wf(),
            backed(address),
        ensures
            *r == old(self).spec_read(address),
            final(self).wf(),
            forall|b: u16|
                final(self).spec_read(b) == old(self).spec_written(address, *final(r), b),
    {
        match region_of(address) {
            Region::Rom => &mut self.rom[address as usize],
            Region::VideoRam => &mut self.gpu.ram[(address - 0x8000) as usize],
            Region::ExternalRam => &mut self.eram[(address - 0xA000) as usize],
            Region::WorkRam => &mut self.wram[(address - 0xC000) as usize],
            Region::WorkRamMirror => &mut self.wram[(address - 0xE000) as usize],
            Region::SpriteTable => &mut self.gpu.oam[(address - 0xFE00) as usize],
            Region::Reserved => {
                proof {
                    assert(false);
                }
                &mut self.rom[0]
            },
            Region::UnhandledIo => {
                proof {
                    assert(false);
                }
                &mut self.rom[0]
            },
            Region::HighRam => &mut self.hram[(address - 0xFF80) as usize],
        }
    }
}

/// How much of the input a ROM load consumes: all of it, capped at the
/// window's 32 KiB capacity.
pub open spec fn loaded_len(input_len: nat) -> int {
    if input_len < 0x8000 {
        input_len as int
    } else {
        0x8000
    }
}

/// Working RAM and its mirror window are two views of the same cells: for
/// every address `a` with 0xC000 <= a <= 0xDDFF, the byte at `a` and the byte
/// at `a + 0x2000` are equal — so a byte written through either window is
/// observable unchanged through the other.
pub proof fn lemma_wram_mirror(bus: MemoryBus, a: u16)
    requires
        bus.wf(),
        0xC000 <= a <= 0xDDFF,
    ensures
        bus.spec_read(a) == bus.spec_read((a + 0x2000) as u16),
{
}

/// Every address in the reserved and unhandled-I/O windows reads as 0, on
/// every well-formed bus — hence regardless of prior writes (which
/// `write_byte`'s contract shows leave the bus unchanged there).
pub proof fn lemma_unbacked_reads_zero(bus: MemoryBus, a: u16)
    requires
        bus.wf(),
        !backed(a),
    ensures
        bus.spec_read(a) == 0,
{
}

} // verus!
