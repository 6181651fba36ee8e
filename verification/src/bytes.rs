//! Fixed-width integer fields of the capture byte stream.
//!
//! Both capture formats store their fields as little- or big-endian words;
//! which of the two holds is declared by the file (legacy pcap) or by the
//! current section (pcapng).

use vstd::prelude::*;

verus! {

/// The 16-bit little-endian value at offset `i`.
pub open spec fn le16(b: Seq<u8>, i: int) -> int {
    b[i] + b[i + 1] * 0x100
}

/// The 16-bit big-endian value at offset `i`.
pub open spec fn be16(b: Seq<u8>, i: int) -> int {
    b[i] * 0x100 + b[i + 1]
}

/// The 16-bit value at offset `i` under the given byte order.
pub open spec fn word16(b: Seq<u8>, i: int, big_endian: bool) -> int {
    if big_endian {
        be16(b, i)
    } else {
        le16(b, i)
    }
}

/// The 32-bit little-endian value at offset `i`.
pub open spec fn le32(b: Seq<u8>, i: int) -> int {
    b[i] + b[i + 1] * 0x100 + b[i + 2] * 0x1_0000 + b[i + 3] * 0x100_0000
}

/// The 32-bit big-endian value at offset `i`.
pub open spec fn be32(b: Seq<u8>, i: int) -> int {
    b[i] * 0x100_0000 + b[i + 1] * 0x1_0000 + b[i + 2] * 0x100 + b[i + 3]
}

/// The 32-bit value at offset `i` under the given byte order.
pub open spec fn word32(b: Seq<u8>, i: int, big_endian: bool) -> int {
    if big_endian {
        be32(b, i)
    } else {
        le32(b, i)
    }
}

/// Read the 16-bit field at offset `i`.
pub fn read_u16(data: &[u8], i: usize, big_endian: bool) -> (r: u16)
    requires
        i + 2 <= data@.len(),
    ensures
        r == word16(data@, i as int, big_endian),
{
    let b0: u16 = data[i] as u16;
    let b1: u16 = data[i + 1] as u16;
    if big_endian {
        b0 * 0x100 + b1
    } else {
        b0 + b1 * 0x100
    }
}

/// Read the 32-bit field at offset `i`.
pub fn read_u32(data: &[u8], i: usize, big_endian: bool) -> (r: u32)
    requires
        i + 4 <= data@.len(),
    ensures
        r == word32(data@, i as int, big_endian),
{
    let b0: u32 = data[i] as u32;
    let b1: u32 = data[i + 1] as u32;
    let b2: u32 = data[i + 2] as u32;
    let b3: u32 = data[i + 3] as u32;
    if big_endian {
        b0 * 0x100_0000 + b1 * 0x1_0000 + b2 * 0x100 + b3
    } else {
        b0 + b1 * 0x100 + b2 * 0x1_0000 + b3 * 0x100_0000
    }
}

} // verus!
