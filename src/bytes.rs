//! Fixed-width integer fields of kernel structures.
//!
//! Kernel structures are laid out in host byte order; this library targets
//! little-endian hosts, so every field is read least significant byte first.
use vstd::prelude::*;

verus! {

/// The `u16` stored at `off` in `b`.
pub open spec fn le_u16(b: Seq<u8>, off: int) -> u16 {
    (b[off] as int + b[off + 1] as int * 0x100) as u16
}

/// The `u32` stored at `off` in `b`.
pub open spec fn le_u32(b: Seq<u8>, off: int) -> u32 {
    (b[off] as int + b[off + 1] as int * 0x100 + b[off + 2] as int * 0x1_0000 + b[off + 3] as int
        * 0x100_0000) as u32
}

/// The `u64` stored at `off` in `b`.
pub open spec fn le_u64(b: Seq<u8>, off: int) -> u64 {
    (le_u32(b, off) as int + le_u32(b, off + 4) as int * 0x1_0000_0000) as u64
}

pub fn read_u8(b: &[u8], off: usize) -> (r: u8)
    requires
        off < b@.len(),
    ensures
        r == b@[off as int],
{
    b[off]
}

pub fn read_u16(b: &[u8], off: usize) -> (r: u16)
    requires
        off + 2 <= b@.len(),
    ensures
        r == le_u16(b@, off as int),
{
    let lo = b[off] as u16;
    let hi = b[off + 1] as u16;
    lo + hi * 0x100
}

pub fn read_u32(b: &[u8], off: usize) -> (r: u32)
    requires
        off + 4 <= b@.len(),
    ensures
        r == le_u32(b@, off as int),
{
    let b0 = b[off] as u32;
    let b1 = b[off + 1] as u32;
    let b2 = b[off + 2] as u32;
    let b3 = b[off + 3] as u32;
    b0 + b1 * 0x100 + b2 * 0x1_0000 + b3 * 0x100_0000
}

pub fn read_u64(b: &[u8], off: usize) -> (r: u64)
    requires
        off + 8 <= b@.len(),
    ensures
        r == le_u64(b@, off as int),
{
    // the slice's length bounds `off + 8`, so `off + 4` does not overflow
    let len = b.len();
    let lo = read_u32(b, off) as u64;
    let hi = read_u32(b, off + 4) as u64;
    lo + hi * 0x1_0000_0000
}

} // verus!
