//! Reading and writing fixed width integers in received and sent datagrams.
use vstd::prelude::*;

verus! {

/// The little endian 16 bit number at offset `at`.
pub open spec fn le16(data: Seq<u8>, at: int) -> int {
    data[at] + 0x100 * data[at + 1]
}

/// The little endian 32 bit number at offset `at`.
pub open spec fn le32(data: Seq<u8>, at: int) -> int {
    data[at] + 0x100 * data[at + 1] + 0x1_0000 * data[at + 2] + 0x100_0000 * data[at + 3]
}

/// The big endian 16 bit number at offset `at`.
pub open spec fn be16(data: Seq<u8>, at: int) -> int {
    0x100 * data[at] + data[at + 1]
}

/// The signed number that 16 bits denote.
pub open spec fn signed16(n: int) -> int {
    if n >= 0x8000 {
        n - 0x1_0000
    } else {
        n
    }
}

/// The signed number that 8 bits denote.
pub open spec fn signed8(n: int) -> int {
    if n >= 0x80 {
        n - 0x100
    } else {
        n
    }
}

/// The signed number that 32 bits denote.
pub open spec fn signed32(n: int) -> int {
    if n >= 0x8000_0000 {
        n - 0x1_0000_0000
    } else {
        n
    }
}

/// The number `n` as two bytes, low byte first.
pub open spec fn le16_bytes(n: int) -> Seq<u8> {
    seq![(n % 0x100) as u8, (n / 0x100 % 0x100) as u8]
}

/// The number `n` as four bytes, low byte first.
pub open spec fn le32_bytes(n: int) -> Seq<u8> {
    seq![
        (n % 0x100) as u8,
        (n / 0x100 % 0x100) as u8,
        (n / 0x1_0000 % 0x100) as u8,
        (n / 0x100_0000 % 0x100) as u8,
    ]
}

/// Reads a little endian `u16`.
pub fn read_u16_le(data: &[u8], at: usize) -> (n: u16)
    requires
        at + 2 <= data.len(),
    ensures
        n == le16(data@, at as int),
{
    data[at] as u16 + 0x100 * (data[at + 1] as u16)
}

/// Reads a little endian `i16`.
pub fn read_i16_le(data: &[u8], at: usize) -> (n: i16)
    requires
        at + 2 <= data.len(),
    ensures
        n == signed16(le16(data@, at as int)),
{
    let n: i32 = read_u16_le(data, at) as i32;
    if n >= 0x8000 {
        (n - 0x1_0000) as i16
    } else {
        n as i16
    }
}

/// Reads an `i8`.
pub fn read_i8(data: &[u8], at: usize) -> (n: i8)
    requires
        at < data.len(),
    ensures
        n == signed8(data@[at as int] as int),
{
    let n: i16 = data[at] as i16;
    if n >= 0x80 {
        (n - 0x100) as i8
    } else {
        n as i8
    }
}

/// Reads a little endian `i32`.
pub fn read_i32_le(data: &[u8], at: usize) -> (n: i32)
    requires
        at + 4 <= data.len(),
    ensures
        n == signed32(le32(data@, at as int)),
{
    let n: i64 = read_u32_le(data, at) as i64;
    if n >= 0x8000_0000 {
        (n - 0x1_0000_0000) as i32
    } else {
        n as i32
    }
}

/// Reads a little endian `u32`.
pub fn read_u32_le(data: &[u8], at: usize) -> (n: u32)
    requires
        at + 4 <= data.len(),
    ensures
        n == le32(data@, at as int),
{
    data[at] as u32 + 0x100 * (data[at + 1] as u32) + 0x1_0000 * (data[at + 2] as u32)
        + 0x100_0000 * (data[at + 3] as u32)
}

/// Reads a big endian `u16`.
pub fn read_u16_be(data: &[u8], at: usize) -> (n: u16)
    requires
        at + 2 <= data.len(),
    ensures
        n == be16(data@, at as int),
{
    0x100 * (data[at] as u16) + data[at + 1] as u16
}

/// Appends `n` as two bytes, low byte first.
pub fn push_u16_le(out: &mut Vec<u8>, n: u16)
    ensures
        final(out)@ == old(out)@ + le16_bytes(n as int),
{
    out.push((n % 0x100) as u8);
    out.push((n / 0x100) as u8);
    assert(out@ =~= old(out)@ + le16_bytes(n as int));
}

/// Appends `n` as four bytes, low byte first.
pub fn push_u32_le(out: &mut Vec<u8>, n: u32)
    ensures
        final(out)@ == old(out)@ + le32_bytes(n as int),
{
    out.push((n % 0x100) as u8);
    out.push((n / 0x100 % 0x100) as u8);
    out.push((n / 0x1_0000 % 0x100) as u8);
    out.push((n / 0x100_0000 % 0x100) as u8);
    assert(out@ =~= old(out)@ + le32_bytes(n as int));
}

/// Appends all bytes of `tail`.
pub fn push_bytes(out: &mut Vec<u8>, tail: &[u8])
    ensures
        final(out)@ == old(out)@ + tail@,
{
    let mut i: usize = 0;
    while i < tail.len()
        invariant
            i <= tail.len(),
            out@ == old(out)@ + tail@.subrange(0, i as int),
        decreases tail.len() - i,
    {
        out.push(tail[i]);
        i = i + 1;
    }
    assert(tail@.subrange(0, i as int) =~= tail@);
}

/// A 16 bit number that was written low byte first is read back unchanged.
pub proof fn le16_round_trip(n: u16)
    ensures
        le16(le16_bytes(n as int), 0) == n,
{
}

/// A 32 bit number that was written low byte first is read back unchanged.
pub proof fn le32_round_trip(n: u32)
    ensures
        le32(le32_bytes(n as int), 0) == n,
{
}

} // verus!
