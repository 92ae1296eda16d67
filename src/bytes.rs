//! Fixed-width integer reads at a byte offset, in either byte order.
use vstd::prelude::*;

verus! {

/// Big-endian 16-bit value of the two bytes at `i`.
pub open spec fn be16(d: Seq<u8>, i: int) -> int {
    d[i] as int * 256 + d[i + 1] as int
}

/// Little-endian 16-bit value of the two bytes at `i`.
pub open spec fn le16(d: Seq<u8>, i: int) -> int {
    d[i + 1] as int * 256 + d[i] as int
}

/// Big-endian 32-bit value of the four bytes at `i`.
pub open spec fn be32(d: Seq<u8>, i: int) -> int {
    be16(d, i) * 65536 + be16(d, i + 2)
}

/// Little-endian 32-bit value of the four bytes at `i`.
pub open spec fn le32(d: Seq<u8>, i: int) -> int {
    le16(d, i + 2) * 65536 + le16(d, i)
}

/// 16-bit value at `i` in the given byte order.
pub open spec fn u16_at(d: Seq<u8>, i: int, little: bool) -> int {
    if little {
        le16(d, i)
    } else {
        be16(d, i)
    }
}

/// 32-bit value at `i` in the given byte order.
pub open spec fn u32_at(d: Seq<u8>, i: int, little: bool) -> int {
    if little {
        le32(d, i)
    } else {
        be32(d, i)
    }
}

pub fn read_be16(d: &[u8], i: usize) -> (r: u16)
    requires
        i + 2 <= d@.len(),
    ensures
        r == be16(d@, i as int),
{
    // the length of a slice fits in usize, which bounds the offsets below
    let _len = d.len();
    (d[i] as u16) * 256 + (d[i + 1] as u16)
}

pub fn read_le16(d: &[u8], i: usize) -> (r: u16)
    requires
        i + 2 <= d@.len(),
    ensures
        r == le16(d@, i as int),
{
    // the length of a slice fits in usize, which bounds the offsets below
    let _len = d.len();
    (d[i + 1] as u16) * 256 + (d[i] as u16)
}

pub fn read_be32(d: &[u8], i: usize) -> (r: u32)
    requires
        i + 4 <= d@.len(),
    ensures
        r == be32(d@, i as int),
{
    // the length of a slice fits in usize, which bounds the offsets below
    let _len = d.len();
    let hi = read_be16(d, i) as u32;
    let lo = read_be16(d, i + 2) as u32;
    hi * 65536 + lo
}

pub fn read_le32(d: &[u8], i: usize) -> (r: u32)
    requires
        i + 4 <= d@.len(),
    ensures
        r == le32(d@, i as int),
{
    // the length of a slice fits in usize, which bounds the offsets below
    let _len = d.len();
    let hi = read_le16(d, i + 2) as u32;
    let lo = read_le16(d, i) as u32;
    hi * 65536 + lo
}

pub fn read_u16(d: &[u8], i: usize, little: bool) -> (r: u16)
    requires
        i + 2 <= d@.len(),
    ensures
        r == u16_at(d@, i as int, little),
{
    if little {
        read_le16(d, i)
    } else {
        read_be16(d, i)
    }
}

pub fn read_u32(d: &[u8], i: usize, little: bool) -> (r: u32)
    requires
        i + 4 <= d@.len(),
    ensures
        r == u32_at(d@, i as int, little),
{
    if little {
        read_le32(d, i)
    } else {
        read_be32(d, i)
    }
}

} // verus!
