//! The second phase of a session: matching every captured frame against
//! every logged event, in capture order.
use vstd::prelude::*;

use crate::event::{Event, EventView};
use crate::matcher::{event_matches_packet, frame_matches};

verus! {

/// Link-layer type of an 802.11 capture with a radiotap header in front of each frame.
pub const LINKTYPE_IEEE802_11_RADIOTAP: i32 = 127;

/// A frame read back from the capture file.
#[derive(Clone, Debug)]
pub struct CapturedFrame {
    /// The captured bytes.
    pub data: Vec<u8>,
    /// Length of the frame on the air.
    pub wire_len: u32,
}

/// One read from the capture file: a frame, or a read that failed.
#[derive(Clone, Debug)]
pub enum CaptureRecord {
    Frame(CapturedFrame),
    Unreadable,
}

/// What became of one capture record.
#[derive(Clone, Copy, Debug, PartialEq, Eq, Structural)]
pub enum RecordOutcome {
    /// The frame was compared against every event.
    Compared,
    /// Part of the frame was not captured; it was skipped.
    Truncated,
    /// The read failed; the record was skipped.
    Unreadable,
}

/// The capture does not hold 802.11 frames behind a radiotap header.
#[derive(Clone, Copy, Debug, PartialEq, Eq, Structural)]
pub struct LinktypeMismatch {
    pub found: i32,
}


/// Whether capture record `rec` is a whole frame that caused event `e`.
pub open spec fn record_matches(e: EventView, rec: CaptureRecord) -> bool {
    match rec {
        CaptureRecord::Frame(f) => f.data@.len() == f.wire_len && frame_matches(
            e,
            f.data@,
            f.data@.len() as int,
        ),
        CaptureRecord::Unreadable => false,
    }
}

/// The outcome of handling capture record `rec`.
pub open spec fn outcome_of(rec: CaptureRecord) -> RecordOutcome {
    match rec {
        CaptureRecord::Frame(f) => if f.data@.len() == f.wire_len {
            RecordOutcome::Compared
        } else {
            RecordOutcome::Truncated
        },
        CaptureRecord::Unreadable => RecordOutcome::Unreadable,
    }
}

/// The sequence numbers (1-based, counting every record) of the records in
/// `recs` that caused event `e`, in capture order.
pub open spec fn match_list(e: EventView, recs: Seq<CaptureRecord>) -> Seq<usize>
    decreases recs.len(),
{
    if recs.len() == 0 {
        Seq::empty()
    } else {
        match_list(e, recs.drop_last()) + if record_matches(e, recs.last()) {
            seq![recs.len() as usize]
        } else {
            Seq::empty()
        }
    }
}

/// Event `e` with `extra` appended to its match list.
pub open spec fn with_pkts(e: EventView, extra: Seq<usize>) -> EventView {
    EventView { pkts: e.pkts + extra, ..e }
}

/// Progress of a reconciliation pass: the sequence number the next capture
/// record gets.
pub struct Reconciliation {
    next_seq: usize,
}

impl Reconciliation {
    /// Sequence number of the next capture record.
    pub closed spec fn next_seq(&self) -> nat {
        self.next_seq as nat
    }

    /// Starts a pass over a capture of link-layer type `linktype`, which
    /// must be 802.11 with a radiotap header.
    pub fn new(linktype: i32) -> (r: Result<Reconciliation, LinktypeMismatch>)
        ensures
            r is Ok <==> linktype == LINKTYPE_IEEE802_11_RADIOTAP,
            r matches Ok(s) ==> s.next_seq() == 1,
            r matches Err(m) ==> m.found == linktype,
    {
        if linktype != LINKTYPE_IEEE802_11_RADIOTAP {
            return Err(LinktypeMismatch { found: linktype });
        }
        Ok(Reconciliation { next_seq: 1 })
    }

    /// Handles the next capture record: gives it the next sequence number,
    /// and, if it is a frame captured whole, appends that number to the
    /// match list of every event the frame matches. Returns the number and
    /// what was done.
    pub fn on_record(&mut self, events: &mut Vec<Event>, rec: &CaptureRecord) -> (r: (
        usize,
        RecordOutcome,
    ))
        requires
            old(self).next_seq() < usize::MAX,
        ensures
            r.0 == old(self).next_seq(),
            r.1 == outcome_of(*rec),
            final(self).next_seq() == old(self).next_seq() + 1,
            final(events)@.len() == old(events)@.len(),
            forall|i: int|
                0 <= i < old(events)@.len() ==> #[trigger] final(events)@[i]@ == with_pkts(
                    old(events)@[i]@,
                    if record_matches(old(events)@[i]@, *rec) {
                        seq![r.0]
                    } else {
                        Seq::empty()
                    },
                ),
    {
        let seq = self.next_seq;
        self.next_seq = self.next_seq + 1;
        let frame = match rec {
            CaptureRecord::Frame(f) => f,
            CaptureRecord::Unreadable => {
                proof {
                    assert forall|i: int| 0 <= i < old(events)@.len() implies #[trigger] events@[i]@
                        == with_pkts(old(events)@[i]@, Seq::empty()) by {
                        assert(old(events)@[i]@.pkts + Seq::<usize>::empty() =~= old(events)@[i]@.pkts);
                    }
                }
                return (seq, RecordOutcome::Unreadable);
            },
        };
        if frame.data.len() != frame.wire_len as usize {
            proof {
                assert forall|i: int| 0 <= i < old(events)@.len() implies #[trigger] events@[i]@
                    == with_pkts(old(events)@[i]@, Seq::empty()) by {
                    assert(old(events)@[i]@.pkts + Seq::<usize>::empty() =~= old(events)@[i]@.pkts);
                }
            }
            return (seq, RecordOutcome::Truncated);
        }
        let n = events.len();
        let mut k: usize = 0;
        while k < n
            invariant
                k <= n,
                n == events@.len(),
                n == old(events)@.len(),
                frame.data@.len() == frame.wire_len,
                *rec == CaptureRecord::Frame(*frame),
                forall|i: int|
                    0 <= i < k ==> #[trigger] events@[i]@ == with_pkts(
                        old(events)@[i]@,
                        if record_matches(old(events)@[i]@, *rec) {
                            seq![seq]
                        } else {
                            Seq::empty()
                        },
                    ),
                forall|i: int| k <= i < n ==> #[trigger] events@[i] == old(events)@[i],
            decreases n - k,
        {
            let len = frame.data.len();
            let ghost e = old(events)@[k as int]@;
            assert(record_matches(e, *rec) == frame_matches(e, frame.data@, len as int));
            if event_matches_packet(&events[k], frame.data.as_slice(), len) {
                events[k].push_packet(seq);
                assert(e.pkts.push(seq) =~= e.pkts + seq![seq]);
            } else {
                assert(old(events)@[k as int]@.pkts + Seq::<usize>::empty() =~= old(events)@[k as int]@.pkts);
            }
            k = k + 1;
        }
        (seq, RecordOutcome::Compared)
    }
}

/// Matches every record of a capture against every event: each event's
/// match list gets the sequence numbers (1-based, in capture order) of the
/// whole frames that match it.
pub fn reconcile(events: &mut Vec<Event>, records: &[CaptureRecord])
    requires
        records@.len() < usize::MAX,
    ensures
        final(events)@.len() == old(events)@.len(),
        forall|i: int|
            0 <= i < old(events)@.len() ==> #[trigger] final(events)@[i]@ == with_pkts(
                old(events)@[i]@,
                match_list(old(events)@[i]@, records@),
            ),
{
    let mut pass = Reconciliation { next_seq: 1 };
    let n = records.len();
    let mut j: usize = 0;
    while j < n
        invariant
            j <= n,
            n == records@.len(),
            n < usize::MAX,
            pass.next_seq() == j + 1,
            events@.len() == old(events)@.len(),
            forall|i: int|
                0 <= i < old(events)@.len() ==> #[trigger] events@[i]@ == with_pkts(
                    old(events)@[i]@,
                    match_list(old(events)@[i]@, records@.subrange(0, j as int)),
                ),
        decreases n - j,
    {
        let ghost before = events@;
        let _ = pass.on_record(events, &records[j]);
        proof {
            let recs = records@.subrange(0, j + 1);
            assert(recs.drop_last() =~= records@.subrange(0, j as int));
            assert(recs.last() == records@[j as int]);
            assert forall|i: int| 0 <= i < old(events)@.len() implies #[trigger] events@[i]@
                == with_pkts(old(events)@[i]@, match_list(old(events)@[i]@, recs)) by {
                let e = old(events)@[i]@;
                assert(before[i]@ == with_pkts(e, match_list(e, records@.subrange(0, j as int))));
                assert(record_matches(before[i]@, records@[j as int]) == record_matches(e, records@[j as int]));
                assert(with_pkts(e, match_list(e, recs)).pkts =~= events@[i]@.pkts);
            }
        }
        j = j + 1;
    }
    assert(records@.subrange(0, n as int) =~= records@);
}

/// Reconciliation is deterministic and repeatable: the numbers it appends
/// to an event's match list depend only on the event's other fields and on
/// the capture, never on the match list the event already has, so running
/// it again on the same event log and capture appends the same numbers.
/// Those numbers are strictly ascending, and each is the sequence number of
/// a record of the capture.
pub proof fn lemma_reconcile_repeatable(e1: EventView, e2: EventView, recs: Seq<CaptureRecord>)
    requires
        e1 == (EventView { pkts: e1.pkts, ..e2 }),
        recs.len() < usize::MAX,
    ensures
        match_list(e1, recs) == match_list(e2, recs),
        forall|i: int, j: int|
            0 <= i < j < match_list(e1, recs).len() ==> match_list(e1, recs)[i] < match_list(
                e1,
                recs,
            )[j],
        forall|i: int|
            0 <= i < match_list(e1, recs).len() ==> 1 <= #[trigger] match_list(e1, recs)[i]
                <= recs.len(),
    decreases recs.len(),
{
    if recs.len() > 0 {
        let prev = recs.drop_last();
        lemma_reconcile_repeatable(e1, e2, prev);
        assert(record_matches(e1, recs.last()) == record_matches(e2, recs.last()));
        let m = match_list(e1, recs);
        let p = match_list(e1, prev);
        assert forall|i: int| 0 <= i < p.len() implies 1 <= #[trigger] m[i] <= recs.len() && m[i]
            < recs.len() by {
            assert(m[i] == p[i]);
        }
    }
}

} // verus!
