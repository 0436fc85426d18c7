//! The video region: passive storage for tile RAM, the decoded tile set, the
//! pixel buffer and the sprite attribute table. It exposes no behaviour of
//! its own; the memory bus routes reads and writes into `ram` and `oam`.

use vstd::prelude::*;

verus! {

pub const VIDEO_RAM_SIZE: usize = 0x2000;

pub const PIXEL_COUNT: usize = 160 * 144;

pub const OAM_SIZE: usize = 0xA0;

pub const TILE_SIZE: usize = 64;

pub const TILE_SET_SIZE: usize = 384;

/// Builds a byte vector of length `n` holding only zeros.
pub(crate) fn zero_bytes(n: usize) -> (r: Vec<u8>)
    ensures
        r@.len() == n,
        forall|i: int| 0 <= i < n ==> r@[i] == 0,
{
    let mut v: Vec<u8> = Vec::new();
    let mut i: usize = 0;
    while i < n
        invariant
            i <= n,
            v@.len() == i,
            forall|j: int| 0 <= j < i ==> v@[j] == 0,
        decreases n - i,
    {
        v.push(0);
        i = i + 1;
    }
    v
}

/// Tile memory (`ram`), the tile set decoded from it (stored as
/// `TILE_SET_SIZE` tiles of `TILE_SIZE` bytes each), the pixel buffer, and
/// the sprite attribute table (`oam`).
pub struct GPU {
    pub ram: Vec<u8>,
    pub tile_set: Vec<u8>,
    pub canvas_buffer: Vec<u8>,
    pub oam: Vec<u8>,
}

impl GPU {
    /// The regions have their fixed sizes.
    pub open spec fn wf(self) -> bool {
        &&& self.ram@.len() == VIDEO_RAM_SIZE
        &&& self.tile_set@.len() == TILE_SET_SIZE * TILE_SIZE
        &&& self.canvas_buffer@.len() == PIXEL_COUNT
        &&& self.oam@.len() == OAM_SIZE
    }

    /// Builds the video region with every byte cleared.
    pub fn new() -> (r: GPU)
        ensures
            r.wf(),
            forall|i: int| 0 <= i < VIDEO_RAM_SIZE ==> r.ram@[i] == 0,
            forall|i: int| 0 <= i < OAM_SIZE ==> r.oam@[i] == 0,
    {
        GPU {
            ram: zero_bytes(VIDEO_RAM_SIZE),
            tile_set: zero_bytes(TILE_SET_SIZE * TILE_SIZE),
            canvas_buffer: zero_bytes(PIXEL_COUNT),
            oam: zero_bytes(OAM_SIZE),
        }
    }
}

} // verus!
