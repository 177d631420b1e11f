//! The fixed-layout record that the kernel probe hands over for each
//! path-table mutation, and its decoding from bytes.
//!
//! Layout, in bytes, integers little-endian:
//!
//! | field      | offset | size |
//! |------------|--------|------|
//! | `mac`      | 0      | 6    |
//! | `iface`    | 6      | 16   |
//! | `action`   | 24     | 4    |
//! | `dst`      | 28     | 6    |
//! | `old_nh`   | 34     | 6    |
//! | `new_nh`   | 40     | 6    |
//! | `frm_ctrl` | 46     | 2    |
//! | `seq_ctrl` | 48     | 2    |
//! | `qos_ctrl` | 50     | 2    |
//! | `addr1`    | 52     | 6    |
//! | `addr2`    | 58     | 6    |
//! | `addr3`    | 64     | 6    |
//! | `addr4`    | 70     | 6    |
//! | `has_nh`   | 76     | 1    |
//! | `ts`       | 80     | 8    |
//!
//! Bytes 22..24 and 77..80 are padding.
use vstd::prelude::*;

use crate::action::{action_code, Action, ACTION_COUNT};
use crate::bytes::{le_value, read_le_u32, read_le_u64, read_u16_at};
use crate::mac::MacAddr;

verus! {

/// Size of a kernel record in bytes.
pub const RAW_EVENT_LEN: usize = 88;

/// One path-table mutation as reported by the kernel probe.
#[derive(Clone, Copy, Debug)]
pub struct RawEvent {
    /// Address of the interface that saw the mutation.
    pub mac: MacAddr,
    /// Interface name, padded with NUL bytes.
    pub iface: [u8; 16],
    pub action: Action,
    /// Destination of the path.
    pub dst: MacAddr,
    pub old_nh: MacAddr,
    pub new_nh: MacAddr,
    /// Whether the path had a next hop before a deletion.
    pub has_nh: bool,
    /// Nanoseconds since boot.
    pub ts: u64,
    pub frm_ctrl: u16,
    pub seq_ctrl: u16,
    pub qos_ctrl: u16,
    pub addr1: MacAddr,
    pub addr2: MacAddr,
    pub addr3: MacAddr,
    pub addr4: MacAddr,
}

/// Why a kernel record could not be decoded.
#[derive(Clone, Copy, Debug, PartialEq, Eq, Structural)]
pub enum DecodeError {
    /// The record does not have the expected size.
    BadLength,
    /// The action code names no action.
    UnknownAction(u32),
}

/// The little-endian integer stored at `b[start..start + n]`.
pub open spec fn field_value(b: Seq<u8>, start: int, n: int) -> nat {
    le_value(b.subrange(start, start + n))
}

/// Whether `r` holds what the record bytes `b` hold, field by field.
pub open spec fn decodes_to(b: Seq<u8>, r: RawEvent) -> bool {
    &&& r.mac.0@ == b.subrange(0, 6)
    &&& r.iface@ == b.subrange(6, 22)
    &&& action_code(r.action) == field_value(b, 24, 4)
    &&& r.dst.0@ == b.subrange(28, 34)
    &&& r.old_nh.0@ == b.subrange(34, 40)
    &&& r.new_nh.0@ == b.subrange(40, 46)
    &&& r.frm_ctrl == field_value(b, 46, 2)
    &&& r.seq_ctrl == field_value(b, 48, 2)
    &&& r.qos_ctrl == field_value(b, 50, 2)
    &&& r.addr1.0@ == b.subrange(52, 58)
    &&& r.addr2.0@ == b.subrange(58, 64)
    &&& r.addr3.0@ == b.subrange(64, 70)
    &&& r.addr4.0@ == b.subrange(70, 76)
    &&& r.has_nh == (b[76] != 0)
    &&& r.ts == field_value(b, 80, 8)
}

fn mac_at(b: &[u8], at: usize) -> (r: MacAddr)
    requires
        at + 6 <= b@.len(),
    ensures
        r.0@ == b@.subrange(at as int, at + 6),
{
    let r = MacAddr([b[at], b[at + 1], b[at + 2], b[at + 3], b[at + 4], b[at + 5]]);
    assert(r.0@ =~= b@.subrange(at as int, at + 6));
    r
}

fn iface_at(b: &[u8], at: usize) -> (r: [u8; 16])
    requires
        at + 16 <= b@.len(),
    ensures
        r@ == b@.subrange(at as int, at + 16),
{
    let r = [
        b[at], b[at + 1], b[at + 2], b[at + 3], b[at + 4], b[at + 5], b[at + 6], b[at + 7],
        b[at + 8], b[at + 9], b[at + 10], b[at + 11], b[at + 12], b[at + 13], b[at + 14], b[at + 15],
    ];
    assert(r@ =~= b@.subrange(at as int, at + 16));
    r
}

fn u16_at(b: &[u8], at: usize) -> (r: u16)
    requires
        at + 2 <= b@.len(),
    ensures
        r == field_value(b@, at as int, 2),
{
    let r = read_u16_at(b, at);
    proof {
        let s = b@.subrange(at as int, at + 2);
        assert(s.drop_first().drop_first() =~= Seq::<u8>::empty());
        reveal_with_fuel(le_value, 3);
    }
    r
}

impl RawEvent {
    /// Decodes a kernel record. The record must be exactly
    /// [`RAW_EVENT_LEN`] bytes long and name a known action.
    pub fn decode(bytes: &[u8]) -> (r: Result<RawEvent, DecodeError>)
        ensures
            bytes@.len() != RAW_EVENT_LEN ==> r == Err::<RawEvent, DecodeError>(DecodeError::BadLength),
            bytes@.len() == RAW_EVENT_LEN && field_value(bytes@, 24, 4) >= ACTION_COUNT ==> r
                == Err::<RawEvent, DecodeError>(DecodeError::UnknownAction(field_value(bytes@, 24, 4) as u32)),
            r is Ok <==> bytes@.len() == RAW_EVENT_LEN && field_value(bytes@, 24, 4) < ACTION_COUNT,
            r matches Ok(e) ==> decodes_to(bytes@, e),
    {
        if bytes.len() != RAW_EVENT_LEN {
            return Err(DecodeError::BadLength);
        }
        let code = read_le_u32(&bytes[24..28]);
        assert(bytes@.subrange(24, 28).subrange(0, 4) =~= bytes@.subrange(24, 28));
        let action = match Action::from_code(code) {
            Some(a) => a,
            None => {
                return Err(DecodeError::UnknownAction(code));
            },
        };
        let ts = read_le_u64(&bytes[80..88]);
        assert(bytes@.subrange(80, 88).subrange(0, 8) =~= bytes@.subrange(80, 88));
        Ok(RawEvent {
            mac: mac_at(bytes, 0),
            iface: iface_at(bytes, 6),
            action,
            dst: mac_at(bytes, 28),
            old_nh: mac_at(bytes, 34),
            new_nh: mac_at(bytes, 40),
            has_nh: bytes[76] != 0,
            ts,
            frm_ctrl: u16_at(bytes, 46),
            seq_ctrl: u16_at(bytes, 48),
            qos_ctrl: u16_at(bytes, 50),
            addr1: mac_at(bytes, 52),
            addr2: mac_at(bytes, 58),
            addr3: mac_at(bytes, 64),
            addr4: mac_at(bytes, 70),
        })
    }
}

} // verus!
