//! Big-endian integers read from a byte sequence.

use vstd::prelude::*;

verus! {

/// The big-endian 16-bit integer whose first byte is `s[i]`.
pub open spec fn spec_u16_be(s: Seq<u8>, i: int) -> u16 {
    (s[i] as int * 256 + s[i + 1] as int) as u16
}

/// The big-endian 32-bit integer whose first byte is `s[i]`.
pub open spec fn spec_u32_be(s: Seq<u8>, i: int) -> u32 {
    (s[i] as int * 16777216 + s[i + 1] as int * 65536 + s[i + 2] as int * 256 + s[i + 3] as int) as u32
}

/// The number of bytes of `s` from position `pos` on; zero when `pos` lies
/// beyond the end.
pub open spec fn spec_remaining(s: Seq<u8>, pos: int) -> int {
    if pos <= s.len() { s.len() - pos } else { 0 }
}

/// Reads the big-endian 16-bit integer at `pos`.
pub fn read_u16_be(data: &[u8], pos: usize) -> (r: u16)
    requires
        pos + 2 <= data.len(),
    ensures
        r == spec_u16_be(data@, pos as int),
{
    let hi: u16 = data[pos] as u16;
    let lo: u16 = data[pos + 1] as u16;
    hi * 256 + lo
}

/// Reads the big-endian 32-bit integer at `pos`.
pub fn read_u32_be(data: &[u8], pos: usize) -> (r: u32)
    requires
        pos + 4 <= data.len(),
    ensures
        r == spec_u32_be(data@, pos as int),
{
    let b0: u32 = data[pos] as u32;
    let b1: u32 = data[pos + 1] as u32;
    let b2: u32 = data[pos + 2] as u32;
    let b3: u32 = data[pos + 3] as u32;
    b0 * 16777216 + b1 * 65536 + b2 * 256 + b3
}

/// The bytes still unread in `data` from `pos` on.
pub fn remaining(data: &[u8], pos: usize) -> (r: usize)
    ensures
        r == spec_remaining(data@, pos as int),
        data@.len() <= usize::MAX,
{
    if pos <= data.len() {
        data.len() - pos
    } else {
        0
    }
}

} // verus!
