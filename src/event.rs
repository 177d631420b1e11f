//! Domain events: one path-table mutation, with the frames later matched to it.
use vstd::prelude::*;
use vstd::utf8::{decode_utf8, valid_utf8};

use crate::action::{
    is_add_family, is_assign_family, is_frame_caused, is_removal_family,
    is_unknown_or_change_family, Action,
};
use crate::header::{addr4_present, has_addr4, has_qos, qos_present};
use crate::mac::{addr_matches, is_zero_addr, MacAddr};
use crate::raw::RawEvent;
use crate::time::{timestamp_limit, Timestamp};

verus! {

/// What an [`Event`] holds, as mathematical values.
pub struct EventView {
    pub id: usize,
    pub ts: Timestamp,
    pub pkts: Seq<usize>,
    pub action: Action,
    pub mac: MacAddr,
    pub iface: Seq<char>,
    pub dst: MacAddr,
    pub old_nh: Option<MacAddr>,
    pub new_nh: Option<MacAddr>,
    pub frm_ctrl: u16,
    pub seq_ctrl: u16,
    pub qos_ctrl: Option<u16>,
    pub addr1: MacAddr,
    pub addr2: MacAddr,
    pub addr3: MacAddr,
    pub addr4: Option<MacAddr>,
}

/// A mutation of the mesh path table, and the sequence numbers of the
/// captured frames that were found to have caused it.
#[derive(Clone, Debug)]
pub struct Event {
    id: usize,
    ts: Timestamp,
    pkts: Vec<usize>,
    action: Action,
    mac: MacAddr,
    iface: String,
    dst: MacAddr,
    old_nh: Option<MacAddr>,
    new_nh: Option<MacAddr>,
    frm_ctrl: u16,
    seq_ctrl: u16,
    qos_ctrl: Option<u16>,
    addr1: MacAddr,
    addr2: MacAddr,
    addr3: MacAddr,
    addr4: Option<MacAddr>,
}

impl View for Event {
    type V = EventView;

    closed spec fn view(&self) -> EventView {
        EventView {
            id: self.id,
            ts: self.ts,
            pkts: self.pkts@,
            action: self.action,
            mac: self.mac,
            iface: self.iface@,
            dst: self.dst,
            old_nh: self.old_nh,
            new_nh: self.new_nh,
            frm_ctrl: self.frm_ctrl,
            seq_ctrl: self.seq_ctrl,
            qos_ctrl: self.qos_ctrl,
            addr1: self.addr1,
            addr2: self.addr2,
            addr3: self.addr3,
            addr4: self.addr4,
        }
    }
}

/// The text that `String::from_utf8_lossy` makes of a byte sequence.
pub uninterp spec fn utf8_lossy(b: Seq<u8>) -> Seq<char>;

/// Relies on `String::from_utf8_lossy`: the bytes as text, with invalid
/// sequences replaced; valid UTF-8 is decoded as it stands.
#[verifier::external_body]
fn lossy_string(b: &[u8]) -> (r: String)
    ensures
        r@ == utf8_lossy(b@),
        valid_utf8(b@) ==> r@ == decode_utf8(b@),
{
    String::from_utf8_lossy(b).into_owned()
}

/// `b` without its leading NUL bytes.
pub open spec fn trim_leading_nul(b: Seq<u8>) -> Seq<u8>
    decreases b.len(),
{
    if b.len() > 0 && b[0] == 0 {
        trim_leading_nul(b.drop_first())
    } else {
        b
    }
}

/// `b` without its trailing NUL bytes.
pub open spec fn trim_trailing_nul(b: Seq<u8>) -> Seq<u8>
    decreases b.len(),
{
    if b.len() > 0 && b.last() == 0 {
        trim_trailing_nul(b.drop_last())
    } else {
        b
    }
}

/// `b` without its leading and trailing NUL bytes.
pub open spec fn trim_nul(b: Seq<u8>) -> Seq<u8> {
    trim_trailing_nul(trim_leading_nul(b))
}

/// The interface name of a record, as text.
pub open spec fn iface_text(iface: Seq<u8>) -> Seq<char> {
    utf8_lossy(trim_nul(iface))
}

/// Old and new next hop that an event of this record keeps: which of them
/// are present depends on the action alone, and for a removal on whether
/// the path had a next hop.
pub open spec fn nexthops_of(raw: RawEvent) -> (Option<MacAddr>, Option<MacAddr>) {
    if is_add_family(raw.action) {
        (None, None)
    } else if is_unknown_or_change_family(raw.action) {
        (Some(raw.old_nh), Some(raw.new_nh))
    } else if is_assign_family(raw.action) {
        (None, Some(raw.new_nh))
    } else {
        (if raw.has_nh { Some(raw.old_nh) } else { None }, None)
    }
}

/// Whether `e` is the event made from record `raw` under identifier `id`,
/// with the boot-relative timestamp taken from `boot`.
pub open spec fn built_from_raw(e: EventView, raw: RawEvent, id: usize, boot: Timestamp) -> bool {
    &&& e.id == id
    &&& e.ts.wf()
    &&& e.ts.total_nanos() == boot.total_nanos() + raw.ts
    &&& e.pkts == Seq::<usize>::empty()
    &&& e.action == raw.action
    &&& e.mac == raw.mac
    &&& e.iface == iface_text(raw.iface@)
    &&& e.dst == raw.dst
    &&& (e.old_nh, e.new_nh) == nexthops_of(raw)
    &&& e.frm_ctrl == raw.frm_ctrl
    &&& e.seq_ctrl == raw.seq_ctrl
    &&& e.qos_ctrl == (if qos_present(raw.frm_ctrl) { Some(raw.qos_ctrl) } else { None })
    &&& e.addr1 == raw.addr1
    &&& e.addr2 == raw.addr2
    &&& e.addr3 == raw.addr3
    &&& e.addr4 == (if addr4_present(raw.frm_ctrl) { Some(raw.addr4) } else { None })
}

fn trimmed_nul(b: &[u8]) -> (r: Vec<u8>)
    ensures
        r@ == trim_nul(b@),
{
    let n = b.len();
    let mut start: usize = 0;
    assert(b@.subrange(0, n as int) =~= b@);
    while start < n && b[start] == 0
        invariant
            start <= n,
            n == b@.len(),
            trim_leading_nul(b@) == trim_leading_nul(b@.subrange(start as int, n as int)),
        decreases n - start,
    {
        assert(b@.subrange(start as int, n as int).drop_first() =~= b@.subrange(start + 1, n as int));
        start = start + 1;
    }
    assert(trim_leading_nul(b@) == b@.subrange(start as int, n as int));
    let mut end: usize = n;
    while end > start && b[end - 1] == 0
        invariant
            start <= end <= n,
            n == b@.len(),
            trim_nul(b@) == trim_trailing_nul(b@.subrange(start as int, end as int)),
        decreases end - start,
    {
        assert(b@.subrange(start as int, end as int).drop_last() =~= b@.subrange(start as int, end - 1));
        end = end - 1;
    }
    let mut out: Vec<u8> = Vec::new();
    let mut i: usize = start;
    while i < end
        invariant
            start <= i <= end <= n,
            n == b@.len(),
            out@ == b@.subrange(start as int, i as int),
        decreases end - i,
    {
        out.push(b[i]);
        assert(out@ =~= b@.subrange(start as int, i + 1));
        i = i + 1;
    }
    out
}

impl Event {
    /// Makes the event of a kernel record: `count` is its identifier, and
    /// its timestamp is `boot` plus the record's nanoseconds since boot.
    /// There is no event when that instant cannot be represented.
    pub fn from_raw(raw: RawEvent, count: usize, boot: Timestamp) -> (r: Option<Event>)
        requires
            boot.wf(),
        ensures
            r is Some <==> boot.total_nanos() + raw.ts < timestamp_limit(),
            r matches Some(e) ==> built_from_raw(e@, raw, count, boot),
            r matches Some(e) ==> (is_add_family(raw.action) ==> e@.old_nh is None && e@.new_nh is None),
            r matches Some(e) ==> (is_unknown_or_change_family(raw.action) ==> e@.old_nh is Some
                && e@.new_nh is Some),
            r matches Some(e) ==> (is_assign_family(raw.action) ==> e@.old_nh is None && e@.new_nh is Some),
            r matches Some(e) ==> (is_removal_family(raw.action) ==> e@.new_nh is None && (e@.old_nh is Some
                <==> raw.has_nh)),
            r matches Some(e) ==> (e@.qos_ctrl is Some <==> qos_present(raw.frm_ctrl)),
            r matches Some(e) ==> (e@.addr4 is Some <==> addr4_present(raw.frm_ctrl)),
    {
        let ts = match boot.checked_add_nanos(raw.ts) {
            Some(t) => t,
            None => {
                return None;
            },
        };
        let (old_nh, new_nh) = match raw.action {
            Action::ACT_TX_ADD | Action::ACT_RX_ADD | Action::ACT_US_ADD => (None, None),
            Action::ACT_TX_UNKNOWN
            | Action::ACT_RX_UNKNOWN
            | Action::ACT_US_UNKNOWN
            | Action::ACT_TX_CHG
            | Action::ACT_RX_CHG
            | Action::ACT_US_CHG => (Some(raw.old_nh), Some(raw.new_nh)),
            Action::ACT_TX_ADD_ASG
            | Action::ACT_RX_ADD_ASG
            | Action::ACT_TX_ASG
            | Action::ACT_RX_ASG
            | Action::ACT_US_ADD_ASG
            | Action::ACT_US_ASG => (None, Some(raw.new_nh)),
            Action::ACT_TX_DEL | Action::ACT_RX_DEL | Action::ACT_US_DEL | Action::ACT_KR_EXP => (
                if raw.has_nh {
                    Some(raw.old_nh)
                } else {
                    None
                },
                None,
            ),
        };
        let qos_ctrl = if has_qos(raw.frm_ctrl) {
            Some(raw.qos_ctrl)
        } else {
            None
        };
        let addr4 = if has_addr4(raw.frm_ctrl) {
            Some(raw.addr4)
        } else {
            None
        };
        let name = trimmed_nul(raw.iface.as_slice());
        Some(
            Event {
                id: count,
                ts,
                pkts: Vec::new(),
                action: raw.action,
                mac: raw.mac,
                iface: lossy_string(name.as_slice()),
                dst: raw.dst,
                old_nh,
                new_nh,
                frm_ctrl: raw.frm_ctrl,
                seq_ctrl: raw.seq_ctrl,
                qos_ctrl,
                addr1: raw.addr1,
                addr2: raw.addr2,
                addr3: raw.addr3,
                addr4,
            },
        )
    }

    /// An event with the given contents, as read back from a stored log.
    #[allow(clippy::too_many_arguments)]
    pub fn restore(
        id: usize,
        ts: Timestamp,
        pkts: Vec<usize>,
        action: Action,
        mac: MacAddr,
        iface: String,
        dst: MacAddr,
        old_nh: Option<MacAddr>,
        new_nh: Option<MacAddr>,
        frm_ctrl: u16,
        seq_ctrl: u16,
        qos_ctrl: Option<u16>,
        addr1: MacAddr,
        addr2: MacAddr,
        addr3: MacAddr,
        addr4: Option<MacAddr>,
    ) -> (r: Event)
        ensures
            r@ == (EventView {
                id,
                ts,
                pkts: pkts@,
                action,
                mac,
                iface: iface@,
                dst,
                old_nh,
                new_nh,
                frm_ctrl,
                seq_ctrl,
                qos_ctrl,
                addr1,
                addr2,
                addr3,
                addr4,
            }),
    {
        Event {
            id,
            ts,
            pkts,
            action,
            mac,
            iface,
            dst,
            old_nh,
            new_nh,
            frm_ctrl,
            seq_ctrl,
            qos_ctrl,
            addr1,
            addr2,
            addr3,
            addr4,
        }
    }

    /// Records that captured frame number `counter` caused this event.
    pub fn push_packet(&mut self, counter: usize)
        ensures
            final(self)@ == (EventView { pkts: old(self)@.pkts.push(counter), ..old(self)@ }),
    {
        self.pkts.push(counter);
    }

    pub fn id(&self) -> (r: &usize)
        ensures
            *r == self@.id,
    {
        &self.id
    }

    pub fn ts(&self) -> (r: &Timestamp)
        ensures
            *r == self@.ts,
    {
        &self.ts
    }

    /// Sequence numbers of the frames matched to this event, in capture order.
    pub fn pkts(&self) -> (r: &[usize])
        ensures
            r@ == self@.pkts,
    {
        self.pkts.as_slice()
    }

    pub fn action(&self) -> (r: &Action)
        ensures
            *r == self@.action,
    {
        &self.action
    }

    pub fn mac(&self) -> (r: &MacAddr)
        ensures
            *r == self@.mac,
    {
        &self.mac
    }

    pub fn iface(&self) -> (r: &str)
        ensures
            r@ == self@.iface,
    {
        self.iface.as_str()
    }

    pub fn dst(&self) -> (r: &MacAddr)
        ensures
            *r == self@.dst,
    {
        &self.dst
    }

    pub fn old_nh(&self) -> (r: &Option<MacAddr>)
        ensures
            *r == self@.old_nh,
    {
        &self.old_nh
    }

    pub fn new_nh(&self) -> (r: &Option<MacAddr>)
        ensures
            *r == self@.new_nh,
    {
        &self.new_nh
    }

    pub fn frm_ctrl(&self) -> (r: &u16)
        ensures
            *r == self@.frm_ctrl,
    {
        &self.frm_ctrl
    }

    pub fn seq_ctrl(&self) -> (r: &u16)
        ensures
            *r == self@.seq_ctrl,
    {
        &self.seq_ctrl
    }

    pub fn qos_ctrl(&self) -> (r: &Option<u16>)
        ensures
            *r == self@.qos_ctrl,
    {
        &self.qos_ctrl
    }

    pub fn addr1(&self) -> (r: &MacAddr)
        ensures
            *r == self@.addr1,
    {
        &self.addr1
    }

    pub fn addr2(&self) -> (r: &MacAddr)
        ensures
            *r == self@.addr2,
    {
        &self.addr2
    }

    pub fn addr3(&self) -> (r: &MacAddr)
        ensures
            *r == self@.addr3,
    {
        &self.addr3
    }

    pub fn addr4(&self) -> (r: &Option<MacAddr>)
        ensures
            *r == self@.addr4,
    {
        &self.addr4
    }

    /// Compares the event's first address with one read from a frame.
    pub fn compare_addr1(&self, rhs: &[u8]) -> (r: bool)
        ensures
            r == addr_matches(self@.addr1.0@, rhs@),
    {
        Self::compare_addrs(&self.addr1, rhs)
    }

    /// Compares the event's second address with one read from a frame.
    pub fn compare_addr2(&self, rhs: &[u8]) -> (r: bool)
        ensures
            r == addr_matches(self@.addr2.0@, rhs@),
    {
        Self::compare_addrs(&self.addr2, rhs)
    }

    fn compare_addrs(lhs: &MacAddr, rhs: &[u8]) -> (r: bool)
        ensures
            r == addr_matches(lhs.0@, rhs@),
    {
        if lhs.is_wildcard() {
            return true;
        }
        if rhs.len() != lhs.0.len() {
            return false;
        }
        let mut i: usize = 0;
        while i < rhs.len()
            invariant
                i <= rhs@.len(),
                rhs@.len() == lhs.0@.len(),
                !is_zero_addr(lhs.0@),
                forall|j: int| 0 <= j < i ==> lhs.0@[j] == rhs@[j],
            decreases rhs@.len() - i,
        {
            if lhs.0[i] != rhs[i] {
                assert(lhs.0@[i as int] != rhs@[i as int]);
                return false;
            }
            i = i + 1;
        }
        assert(lhs.0@ =~= rhs@);
        true
    }

    /// Whether the event was caused by a transmitted or received frame.
    pub fn from_pkt(&self) -> (r: bool)
        ensures
            r == is_frame_caused(self@.action),
    {
        match self.action {
            Action::ACT_TX_ADD
            | Action::ACT_TX_ADD_ASG
            | Action::ACT_TX_ASG
            | Action::ACT_TX_CHG
            | Action::ACT_TX_DEL
            | Action::ACT_TX_UNKNOWN
            | Action::ACT_RX_ADD
            | Action::ACT_RX_ADD_ASG
            | Action::ACT_RX_ASG
            | Action::ACT_RX_CHG
            | Action::ACT_RX_DEL
            | Action::ACT_RX_UNKNOWN => true,
            _ => false,
        }
    }
}

} // verus!
