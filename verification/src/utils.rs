//! Little/big-endian reads and writes of fixed-width integers at explicit
//! byte offsets within a packet data buffer, with bounds checks.
//!
//! Multi-byte fields of the TSI wire format are little-endian except IPv4
//! ports in `Connect` and `Listen` payloads, which are big-endian.

use crate::TsiError;
use vstd::prelude::*;

verus! {

/// The little-endian 16-bit value at byte offset `off` of `s`.
pub open spec fn le_u16_at(s: Seq<u8>, off: int) -> u16 {
    (s[off] + s[off + 1] * 0x100) as u16
}

/// The big-endian 16-bit value at byte offset `off` of `s`.
pub open spec fn be_u16_at(s: Seq<u8>, off: int) -> u16 {
    (s[off] * 0x100 + s[off + 1]) as u16
}

/// The little-endian 32-bit value at byte offset `off` of `s`.
pub open spec fn le_u32_at(s: Seq<u8>, off: int) -> u32 {
    (s[off] + s[off + 1] * 0x100 + s[off + 2] * 0x1_0000 + s[off + 3] * 0x100_0000) as u32
}

/// The big-endian 32-bit value at byte offset `off` of `s`.
pub open spec fn be_u32_at(s: Seq<u8>, off: int) -> u32 {
    (s[off] * 0x100_0000 + s[off + 1] * 0x1_0000 + s[off + 2] * 0x100 + s[off + 3]) as u32
}

/// The little-endian 32-bit value at byte offset `off` of `s`, reinterpreted
/// as a signed integer in two's complement.
pub open spec fn le_i32_at(s: Seq<u8>, off: int) -> i32 {
    le_u32_at(s, off) as i32
}

/// Copy a byte buffer into a fresh vector.
pub fn clone_bytes(v: &Vec<u8>) -> (r: Vec<u8>)
    ensures
        r@ == v@,
{
    let mut r: Vec<u8> = Vec::new();
    let mut i: usize = 0;
    while i < v.len()
        invariant
            i <= v@.len(),
            r@ == v@.subrange(0, i as int),
        decreases v@.len() - i,
    {
        r.push(v[i]);
        proof {
            assert(r@ =~= v@.subrange(0, (i + 1) as int));
        }
        i = i + 1;
    }
    proof {
        assert(v@.subrange(0, v@.len() as int) =~= v@);
    }
    r
}

/// Read the byte at `offset`, or fail when the buffer is too short.
pub fn read_le_u8(buf: &Vec<u8>, offset: usize) -> (r: Result<u8, TsiError>)
    ensures
        offset + 1 <= buf@.len() ==> r == Ok::<u8, TsiError>(buf@[offset as int]),
        offset + 1 > buf@.len() ==> r == Err::<u8, TsiError>(TsiError::InvalidPktBuf),
{
    if offset < buf.len() {
        Ok(buf[offset])
    } else {
        Err(TsiError::InvalidPktBuf)
    }
}

/// Read the little-endian 16-bit value at `offset`, or fail when the buffer
/// is too short.
pub fn read_le_u16(buf: &Vec<u8>, offset: usize) -> (r: Result<u16, TsiError>)
    ensures
        offset + 2 <= buf@.len() ==> r == Ok::<u16, TsiError>(le_u16_at(buf@, offset as int)),
        offset + 2 > buf@.len() ==> r == Err::<u16, TsiError>(TsiError::InvalidPktBuf),
{
    if buf.len() >= 2 && offset <= buf.len() - 2 {
        let b0 = buf[offset];
        let b1 = buf[offset + 1];
        Ok(b0 as u16 + (b1 as u16) * 0x100)
    } else {
        Err(TsiError::InvalidPktBuf)
    }
}

/// Read the big-endian 16-bit value at `offset`, or fail when the buffer is
/// too short.
pub fn read_be_u16(buf: &Vec<u8>, offset: usize) -> (r: Result<u16, TsiError>)
    ensures
        offset + 2 <= buf@.len() ==> r == Ok::<u16, TsiError>(be_u16_at(buf@, offset as int)),
        offset + 2 > buf@.len() ==> r == Err::<u16, TsiError>(TsiError::InvalidPktBuf),
{
    if buf.len() >= 2 && offset <= buf.len() - 2 {
        let b0 = buf[offset];
        let b1 = buf[offset + 1];
        Ok((b0 as u16) * 0x100 + b1 as u16)
    } else {
        Err(TsiError::InvalidPktBuf)
    }
}

/// Read the little-endian 32-bit value at `offset`, or fail when the buffer
/// is too short.
pub fn read_le_u32(buf: &Vec<u8>, offset: usize) -> (r: Result<u32, TsiError>)
    ensures
        offset + 4 <= buf@.len() ==> r == Ok::<u32, TsiError>(le_u32_at(buf@, offset as int)),
        offset + 4 > buf@.len() ==> r == Err::<u32, TsiError>(TsiError::InvalidPktBuf),
{
    if buf.len() >= 4 && offset <= buf.len() - 4 {
        let b0 = buf[offset];
        let b1 = buf[offset + 1];
        let b2 = buf[offset + 2];
        let b3 = buf[offset + 3];
        Ok(b0 as u32 + (b1 as u32) * 0x100 + (b2 as u32) * 0x1_0000 + (b3 as u32) * 0x100_0000)
    } else {
        Err(TsiError::InvalidPktBuf)
    }
}

/// Read the little-endian 32-bit value at `offset` as a signed integer, or
/// fail when the buffer is too short.
pub fn read_le_i32(buf: &Vec<u8>, offset: usize) -> (r: Result<i32, TsiError>)
    ensures
        offset + 4 <= buf@.len() ==> r == Ok::<i32, TsiError>(le_i32_at(buf@, offset as int)),
        offset + 4 > buf@.len() ==> r == Err::<i32, TsiError>(TsiError::InvalidPktBuf),
{
    match read_le_u32(buf, offset) {
        Ok(v) => Ok(#[verifier::truncate] (v as i32)),
        Err(e) => Err(e),
    }
}

/// Write `data` at `offset` in little-endian byte order; all other bytes are
/// kept. Returns the number of bytes written, or fails when the buffer is
/// too short.
pub fn write_le_u16(buf: &mut Vec<u8>, offset: usize, data: u16) -> (r: Result<u32, TsiError>)
    ensures
        offset + 2 <= old(buf)@.len() ==> {
            &&& r == Ok::<u32, TsiError>(2u32)
            &&& final(buf)@.len() == old(buf)@.len()
            &&& le_u16_at(final(buf)@, offset as int) == data
            &&& forall|i: int|
                0 <= i < old(buf)@.len() && !(offset <= i < offset + 2) ==> final(buf)@[i]
                    == old(buf)@[i]
        },
        offset + 2 > old(buf)@.len() ==> {
            &&& r == Err::<u32, TsiError>(TsiError::InvalidPktBuf)
            &&& *final(buf) == *old(buf)
        },
{
    if buf.len() >= 2 && offset <= buf.len() - 2 {
        buf[offset] = (data % 0x100) as u8;
        buf[offset + 1] = (data / 0x100) as u8;
        Ok(2)
    } else {
        Err(TsiError::InvalidPktBuf)
    }
}

/// Write `data` at `offset` in little-endian byte order as four bytes of two's
/// complement; all other bytes are kept. Returns the number of bytes written,
/// or fails when the buffer is too short.
pub fn write_le_i32(buf: &mut Vec<u8>, offset: usize, data: i32) -> (r: Result<u32, TsiError>)
    ensures
        offset + 4 <= old(buf)@.len() ==> {
            &&& r == Ok::<u32, TsiError>(4u32)
            &&& final(buf)@.len() == old(buf)@.len()
            &&& le_i32_at(final(buf)@, offset as int) == data
            &&& forall|i: int|
                0 <= i < old(buf)@.len() && !(offset <= i < offset + 4) ==> final(buf)@[i]
                    == old(buf)@[i]
        },
        offset + 4 > old(buf)@.len() ==> {
            &&& r == Err::<u32, TsiError>(TsiError::InvalidPktBuf)
            &&& *final(buf) == *old(buf)
        },
{
    let v = #[verifier::truncate] (data as u32);
    proof {
        assert(((data as u32) as i32) == data) by (bit_vector);
    }
    if buf.len() >= 4 && offset <= buf.len() - 4 {
        buf[offset] = (v % 0x100) as u8;
        buf[offset + 1] = ((v / 0x100) % 0x100) as u8;
        buf[offset + 2] = ((v / 0x1_0000) % 0x100) as u8;
        buf[offset + 3] = (v / 0x100_0000) as u8;
        Ok(4)
    } else {
        Err(TsiError::InvalidPktBuf)
    }
}

/// Write `data` at `offset` in big-endian byte order; all other bytes are
/// kept. Returns the number of bytes written, or fails when the buffer is
/// too short.
pub fn write_be_u32(buf: &mut Vec<u8>, offset: usize, data: u32) -> (r: Result<u32, TsiError>)
    ensures
        offset + 4 <= old(buf)@.len() ==> {
            &&& r == Ok::<u32, TsiError>(4u32)
            &&& final(buf)@.len() == old(buf)@.len()
            &&& be_u32_at(final(buf)@, offset as int) == data
            &&& forall|i: int|
                0 <= i < old(buf)@.len() && !(offset <= i < offset + 4) ==> final(buf)@[i]
                    == old(buf)@[i]
        },
        offset + 4 > old(buf)@.len() ==> {
            &&& r == Err::<u32, TsiError>(TsiError::InvalidPktBuf)
            &&& *final(buf) == *old(buf)
        },
{
    if buf.len() >= 4 && offset <= buf.len() - 4 {
        buf[offset] = (data / 0x100_0000) as u8;
        buf[offset + 1] = ((data / 0x1_0000) % 0x100) as u8;
        buf[offset + 2] = ((data / 0x100) % 0x100) as u8;
        buf[offset + 3] = (data % 0x100) as u8;
        Ok(4)
    } else {
        Err(TsiError::InvalidPktBuf)
    }
}

} // verus!
