//! The framebuffer initializer: a bounds-known writable view of the video
//! memory region, exposed as a sequence of 4-byte pixels.
//!
//! The region's byte length need not be a multiple of four; any trailing
//! bytes beyond the last whole pixel are unreachable through the pixel
//! interface and are never written.

use vstd::prelude::*;
use crate::display::BYTES_PER_PIXEL;

verus! {

/// The color every pixel is set to: 32 bits, stored little-endian.
pub const FILL_COLOR: u32 = 0x00ff0000;

/// Byte `j` of a 32-bit pixel value stored little-endian.
pub open spec fn pixel_byte(color: u32, j: int) -> u8
    recommends
        0 <= j < 4,
{
    if j == 0 {
        (color & 0xff) as u8
    } else if j == 1 {
        ((color >> 8u32) & 0xff) as u8
    } else if j == 2 {
        ((color >> 16u32) & 0xff) as u8
    } else {
        ((color >> 24u32) & 0xff) as u8
    }
}

/// The bytes of a memory region after every whole 4-byte pixel in it has
/// been set to `color`: byte `i` of a pixel becomes byte `i % 4` of the
/// color, and every byte past the last whole pixel keeps its old value.
pub open spec fn fill_bytes(mem: Seq<u8>, color: u32) -> Seq<u8> {
    Seq::new(
        mem.len(),
        |i: int|
            if i < 4 * (mem.len() as int / 4) {
                pixel_byte(color, i % 4)
            } else {
                mem[i]
            },
    )
}

/// A writable view of the framebuffer region, bounds-checked at every
/// write. Constructing it touches no memory; only `write_pixel` does.
pub struct Framebuffer {
    bytes: Vec<u8>,
}

impl View for Framebuffer {
    type V = Seq<u8>;

    closed spec fn view(&self) -> Seq<u8> {
        self.bytes@
    }
}

impl Framebuffer {
    /// Wraps a memory region. This is the one way to obtain a writable
    /// pixel view, so every write is bounds-checked against this length.
    pub fn from_bytes(bytes: Vec<u8>) -> (fb: Framebuffer)
        ensures
            fb@ == bytes@,
    {
        Framebuffer { bytes }
    }

    /// Gives the region back, for whoever owns the memory.
    pub fn into_bytes(self) -> (bytes: Vec<u8>)
        ensures
            bytes@ == self@,
    {
        self.bytes
    }

    /// The region's byte length.
    pub fn byte_len(&self) -> (n: usize)
        ensures
            n == self@.len(),
    {
        self.bytes.len()
    }

    /// How many whole pixels the region holds: its byte length divided by
    /// four, rounding down.
    pub fn pixel_count(&self) -> (n: usize)
        ensures
            n == self@.len() as int / 4,
    {
        self.bytes.len() / BYTES_PER_PIXEL
    }

    /// Byte `i` of the region.
    pub fn byte_at(&self, i: usize) -> (b: u8)
        requires
            i < self@.len(),
        ensures
            b == self@[i as int],
    {
        self.bytes[i]
    }

    /// Writes pixel `i`: exactly the four bytes `4*i .. 4*i + 4` change,
    /// to the little-endian bytes of `color`; every other byte, and the
    /// region's length, stay as they were.
    pub fn write_pixel(&mut self, i: usize, color: u32)
        requires
            i < old(self)@.len() as int / 4,
        ensures
            final(self)@.len() == old(self)@.len(),
            forall|j: int| 0 <= j < 4 ==> final(self)@[4 * i + j] == pixel_byte(color, j),
            forall|k: int|
                0 <= k < old(self)@.len() && !(4 * i <= k < 4 * i + 4) ==> final(self)@[k]
                    == old(self)@[k],
    {
        let n = self.bytes.len();
        proof {
            assert(4 * (i as int) + 4 <= 4 * (n as int / 4));
            assert(4 * (n as int / 4) <= n);
        }
        let base = BYTES_PER_PIXEL * i;
        self.bytes[base] = (color & 0xff) as u8;
        self.bytes[base + 1] = ((color >> 8u32) & 0xff) as u8;
        self.bytes[base + 2] = ((color >> 16u32) & 0xff) as u8;
        self.bytes[base + 3] = ((color >> 24u32) & 0xff) as u8;
    }

    /// Sets every whole pixel of the region to `color`; the result is
    /// exactly `fill_bytes` of the old contents.
    pub fn fill(&mut self, color: u32)
        ensures
            final(self)@ == fill_bytes(old(self)@, color),
    {
        let ghost orig: Seq<u8> = self@;
        let count = self.pixel_count();
        let mut i: usize = 0;
        while i < count
            invariant
                count == orig.len() as int / 4,
                0 <= i <= count,
                self@.len() == orig.len(),
                forall|k: int| 0 <= k < 4 * i ==> self@[k] == pixel_byte(color, k % 4),
                forall|k: int| 4 * i <= k < self@.len() ==> self@[k] == orig[k],
            decreases count - i,
        {
            self.write_pixel(i, color);
            proof {
                assert forall|k: int| 0 <= k < 4 * (i + 1) implies self@[k] == pixel_byte(
                    color,
                    k % 4,
                ) by {
                    if 4 * i <= k {
                        let j = k - 4 * i;
                        assert(self@[4 * i + j] == pixel_byte(color, j));
                        assert(k % 4 == j);
                    }
                }
            }
            i = i + 1;
        }
        proof {
            assert(self@ =~= fill_bytes(orig, color));
        }
    }
}

/// Filling a region twice with the same color leaves the same bytes as
/// filling it once.
pub proof fn lemma_fill_idempotent(mem: Seq<u8>, color: u32)
    ensures
        fill_bytes(fill_bytes(mem, color), color) == fill_bytes(mem, color),
{
    assert(fill_bytes(fill_bytes(mem, color), color) =~= fill_bytes(mem, color));
}

/// A byte length that is not a multiple of four leaves the trailing one
/// to three bytes exactly as they were.
pub proof fn lemma_fill_preserves_tail(mem: Seq<u8>, color: u32, i: int)
    requires
        4 * (mem.len() as int / 4) <= i < mem.len(),
    ensures
        fill_bytes(mem, color)[i] == mem[i],
{
}

} // verus!
