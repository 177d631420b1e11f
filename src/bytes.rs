//! Little-endian integers read out of byte buffers.
use vstd::prelude::*;

use byteorder::{ByteOrder, LittleEndian};

verus! {

/// The unsigned integer whose little-endian encoding is `b`.
pub open spec fn le_value(b: Seq<u8>) -> nat
    decreases b.len(),
{
    if b.len() == 0 {
        0
    } else {
        b[0] as nat + 256 * le_value(b.drop_first())
    }
}

/// Relies on `LittleEndian::read_u16`: the first two bytes, least significant first.
#[verifier::external_body]
pub(crate) fn read_le_u16(buf: &[u8]) -> (r: u16)
    requires
        buf@.len() >= 2,
    ensures
        r as nat == le_value(buf@.subrange(0, 2)),
{
    LittleEndian::read_u16(buf)
}

/// Relies on `LittleEndian::read_u32`: the first four bytes, least significant first.
#[verifier::external_body]
pub(crate) fn read_le_u32(buf: &[u8]) -> (r: u32)
    requires
        buf@.len() >= 4,
    ensures
        r as nat == le_value(buf@.subrange(0, 4)),
{
    LittleEndian::read_u32(buf)
}

/// Relies on `LittleEndian::read_u64`: the first eight bytes, least significant first.
#[verifier::external_body]
pub(crate) fn read_le_u64(buf: &[u8]) -> (r: u64)
    requires
        buf@.len() >= 8,
    ensures
        r as nat == le_value(buf@.subrange(0, 8)),
{
    LittleEndian::read_u64(buf)
}

/// Two bytes read at `offset` of `buf`, least significant first.
pub(crate) fn read_u16_at(buf: &[u8], offset: usize) -> (r: u16)
    requires
        offset + 2 <= buf@.len(),
    ensures
        r as int == buf@[offset as int] + 256 * buf@[offset + 1],
{
    assert(buf@.len() == buf.len());
    let r = read_le_u16(&buf[offset..offset + 2]);
    proof {
        let s = buf@.subrange(offset as int, offset + 2);
        assert(s.subrange(0, 2) =~= s);
        assert(s.drop_first().drop_first() =~= Seq::<u8>::empty());
        reveal_with_fuel(le_value, 3);
    }
    r
}

} // verus!
