//! Deciding whether a captured frame is the one that caused an event.
//!
//! A captured frame starts with a capture-metadata header whose length is
//! stored, little-endian, at bytes 2..4; the 802.11 MAC header follows it.
use vstd::prelude::*;

use crate::bytes::read_u16_at;
use crate::event::{Event, EventView};
use crate::header::{has_qos, header_len, mac_header_len, qos_present};
use crate::mac::{addr_matches, is_zero_addr};

verus! {

/// The little-endian 16-bit value at `b[i..i + 2]`.
pub open spec fn le16_at(b: Seq<u8>, i: int) -> int {
    b[i] as int + 256 * b[i + 1] as int
}

/// Length of the capture-metadata header that precedes the MAC header.
pub open spec fn layer1_len(data: Seq<u8>) -> int {
    le16_at(data, 2)
}

/// Frame control, the first field of the MAC header.
pub open spec fn frame_control(data: Seq<u8>) -> u16 {
    le16_at(data, layer1_len(data)) as u16
}

/// Whether the first `len` bytes of `data` hold the length field, the frame
/// control and the whole MAC header that the frame control announces.
pub open spec fn header_complete(data: Seq<u8>, len: int) -> bool {
    &&& len >= 4
    &&& len > layer1_len(data) + 1
    &&& layer1_len(data) + mac_header_len(frame_control(data)) <= len
}

/// Whether the frame in the first `len` bytes of `data` caused event `e`:
/// its frame control, sequence control and QoS control equal the event's,
/// and its first two addresses match the event's (an all-zero address in
/// the event matching any).
pub open spec fn frame_matches(e: EventView, data: Seq<u8>, len: int) -> bool {
    let l1 = layer1_len(data);
    let fc = frame_control(data);
    let hl = mac_header_len(fc);
    &&& header_complete(data, len)
    &&& fc == e.frm_ctrl
    &&& le16_at(data, l1 + 22) == e.seq_ctrl
    &&& e.qos_ctrl == (if qos_present(fc) {
        Some(le16_at(data, l1 + hl - 2) as u16)
    } else {
        None
    })
    &&& addr_matches(e.addr1.0@, data.subrange(l1 + 4, l1 + 10))
    &&& addr_matches(e.addr2.0@, data.subrange(l1 + 10, l1 + 16))
}

/// Whether the frame in the first `len` bytes of `data` caused `event`.
pub fn event_matches_packet(event: &Event, data: &[u8], len: usize) -> (r: bool)
    requires
        len <= data@.len(),
    ensures
        r == frame_matches(event@, data@, len as int),
        len < 4 ==> !r,
        len >= 4 && len <= layer1_len(data@) + 1 ==> !r,
        len > layer1_len(data@) + 1 && layer1_len(data@) + mac_header_len(frame_control(data@)) > len
            ==> !r,
{
    if len < 4 {
        return false;
    }
    let layer1_len = read_u16_at(data, 2) as usize;
    if len <= layer1_len + 1 {
        return false;
    }
    let frm_ctrl = read_u16_at(data, layer1_len);
    let layer2_len = header_len(frm_ctrl);
    if layer1_len + layer2_len > len {
        return false;
    }
    let seq_ctrl = read_u16_at(data, layer1_len + 22);
    let qos_ctrl = if has_qos(frm_ctrl) {
        Some(read_u16_at(data, layer1_len + layer2_len - 2))
    } else {
        None
    };
    let addr1 = &data[layer1_len + 4..layer1_len + 10];
    let addr2 = &data[layer1_len + 10..layer1_len + 16];
    let qos_equal = match (qos_ctrl, *event.qos_ctrl()) {
        (Some(a), Some(b)) => a == b,
        (None, None) => true,
        _ => false,
    };
    frm_ctrl == *event.frm_ctrl() && seq_ctrl == *event.seq_ctrl() && qos_equal
        && event.compare_addr1(addr1) && event.compare_addr2(addr2)
}

/// An event whose first address is all zero is matched by a frame whatever
/// first address the frame carries: two frames that differ only in the
/// bytes of that address match it alike.
pub proof fn lemma_addr1_wildcard(e: EventView, d1: Seq<u8>, d2: Seq<u8>, len: int)
    requires
        is_zero_addr(e.addr1.0@),
        len <= d1.len(),
        d1.len() == d2.len(),
        forall|i: int|
            0 <= i < d1.len() && !(layer1_len(d1) + 4 <= i < layer1_len(d1) + 10) ==> d1[i] == d2[i],
    ensures
        frame_matches(e, d1, len) == frame_matches(e, d2, len),
{
    lemma_same_outside_window(e, d1, d2, len, 4);
}

/// An event whose second address is all zero is matched by a frame whatever
/// second address the frame carries: two frames that differ only in the
/// bytes of that address match it alike.
pub proof fn lemma_addr2_wildcard(e: EventView, d1: Seq<u8>, d2: Seq<u8>, len: int)
    requires
        is_zero_addr(e.addr2.0@),
        len <= d1.len(),
        d1.len() == d2.len(),
        forall|i: int|
            0 <= i < d1.len() && !(layer1_len(d1) + 10 <= i < layer1_len(d1) + 16) ==> d1[i] == d2[i],
    ensures
        frame_matches(e, d1, len) == frame_matches(e, d2, len),
{
    lemma_same_outside_window(e, d1, d2, len, 10);
}

/// Two frames that agree outside the address at MAC-header offset `at`
/// (4 or 10) match an event whose stored address there is the wildcard alike.
proof fn lemma_same_outside_window(e: EventView, d1: Seq<u8>, d2: Seq<u8>, len: int, at: int)
    requires
        at == 4 && is_zero_addr(e.addr1.0@) || at == 10 && is_zero_addr(e.addr2.0@),
        len <= d1.len(),
        d1.len() == d2.len(),
        forall|i: int|
            0 <= i < d1.len() && !(layer1_len(d1) + at <= i < layer1_len(d1) + at + 6) ==> d1[i]
                == d2[i],
    ensures
        frame_matches(e, d1, len) == frame_matches(e, d2, len),
{
    if len >= 4 {
        assert(layer1_len(d1) == layer1_len(d2));
        let l1 = layer1_len(d1);
        if len > l1 + 1 {
            assert(frame_control(d1) == frame_control(d2));
            let fc = frame_control(d1);
            let hl = mac_header_len(fc);
            if l1 + hl <= len {
                assert(le16_at(d1, l1 + 22) == le16_at(d2, l1 + 22));
                if qos_present(fc) {
                    assert(le16_at(d1, l1 + hl - 2) == le16_at(d2, l1 + hl - 2));
                }
                if at == 4 {
                    assert(d1.subrange(l1 + 10, l1 + 16) =~= d2.subrange(l1 + 10, l1 + 16));
                } else {
                    assert(d1.subrange(l1 + 4, l1 + 10) =~= d2.subrange(l1 + 4, l1 + 10));
                }
            }
        }
    }
}

} // verus!
