//! The first phase of a session: turning kernel records into events with
//! sequential identifiers, and framing them as a JSON array that is written
//! out one event at a time.
use vstd::prelude::*;

use crate::event::{built_from_raw, Event};
use crate::raw::{decodes_to, field_value, DecodeError, RawEvent, RAW_EVENT_LEN};
use crate::action::ACTION_COUNT;
use crate::time::{timestamp_limit, Timestamp};

verus! {

/// Why a kernel record did not become an event.
#[derive(Clone, Copy, Debug, PartialEq, Eq, Structural)]
pub enum IngestError {
    /// The record could not be decoded.
    Decode(DecodeError),
    /// Boot time plus the record's timestamp is past what a [`Timestamp`] holds.
    TimestampOverflow,
    /// Every identifier has been handed out.
    IdsExhausted,
}

/// Turns kernel records into events, numbering them 1, 2, 3, ... in
/// arrival order.
pub struct EventIngest {
    next_id: usize,
    boot: Timestamp,
}

impl EventIngest {
    /// Identifier of the next event.
    pub closed spec fn next_id(&self) -> nat {
        self.next_id as nat
    }

    /// The boot time that record timestamps count from.
    pub closed spec fn boot(&self) -> Timestamp {
        self.boot
    }

    pub closed spec fn wf(&self) -> bool {
        self.next_id >= 1 && self.boot.wf()
    }

    /// Starts a session whose record timestamps count from `boot`.
    pub fn new(boot: Timestamp) -> (r: EventIngest)
        requires
            boot.wf(),
        ensures
            r.wf(),
            r.next_id() == 1,
            r.boot() == boot,
    {
        EventIngest { next_id: 1, boot }
    }

    /// Turns the record `bytes` into the next event. The identifier is
    /// used up only when an event is made.
    pub fn ingest(&mut self, bytes: &[u8]) -> (r: Result<Event, IngestError>)
        requires
            old(self).wf(),
        ensures
            final(self).wf(),
            final(self).boot() == old(self).boot(),
            final(self).next_id() == if r is Ok {
                old(self).next_id() + 1
            } else {
                old(self).next_id()
            },
            bytes@.len() != RAW_EVENT_LEN ==> r == Err::<Event, IngestError>(
                IngestError::Decode(DecodeError::BadLength),
            ),
            bytes@.len() == RAW_EVENT_LEN && field_value(bytes@, 24, 4) >= ACTION_COUNT ==> r
                == Err::<Event, IngestError>(
                IngestError::Decode(DecodeError::UnknownAction(field_value(bytes@, 24, 4) as u32)),
            ),
            bytes@.len() == RAW_EVENT_LEN && field_value(bytes@, 24, 4) < ACTION_COUNT ==> {
                if old(self).next_id() == usize::MAX {
                    r == Err::<Event, IngestError>(IngestError::IdsExhausted)
                } else if old(self).boot().total_nanos() + field_value(bytes@, 80, 8)
                    >= timestamp_limit() {
                    r == Err::<Event, IngestError>(IngestError::TimestampOverflow)
                } else {
                    r is Ok
                }
            },
            r matches Ok(e) ==> exists|raw: RawEvent|
                decodes_to(bytes@, raw) && built_from_raw(
                    e@,
                    raw,
                    old(self).next_id() as usize,
                    old(self).boot(),
                ),
    {
        let raw = match RawEvent::decode(bytes) {
            Ok(raw) => raw,
            Err(err) => {
                return Err(IngestError::Decode(err));
            },
        };
        if self.next_id == usize::MAX {
            return Err(IngestError::IdsExhausted);
        }
        match Event::from_raw(raw, self.next_id, self.boot) {
            Some(e) => {
                self.next_id = self.next_id + 1;
                Ok(e)
            },
            None => Err(IngestError::TimestampOverflow),
        }
    }
}

/// `[` in ASCII.
pub const OPEN_BRACKET: u8 = 0x5b;
/// `,` in ASCII.
pub const COMMA: u8 = 0x2c;
/// `]` in ASCII.
pub const CLOSE_BRACKET: u8 = 0x5d;
/// Line feed in ASCII.
pub const NEWLINE: u8 = 0x0a;

/// Entries joined with commas.
pub open spec fn joined(entries: Seq<Seq<u8>>) -> Seq<u8>
    decreases entries.len(),
{
    if entries.len() == 0 {
        Seq::empty()
    } else if entries.len() == 1 {
        entries[0]
    } else {
        joined(entries.drop_last()) + seq![COMMA] + entries.last()
    }
}

/// What the log holds once `entries` have been written: an opening bracket
/// and the entries joined with commas.
pub open spec fn open_log_text(entries: Seq<Seq<u8>>) -> Seq<u8> {
    seq![OPEN_BRACKET] + joined(entries)
}

/// The complete log of `entries`: a JSON array, then a newline.
pub open spec fn closed_log_text(entries: Seq<Seq<u8>>) -> Seq<u8> {
    open_log_text(entries) + seq![CLOSE_BRACKET, NEWLINE]
}

/// Framing of the event log as a JSON array written one entry at a time:
/// an opening bracket when the session starts, each entry as soon as it is
/// made, the closing bracket when the session ends. What was written before
/// a crash is a prefix of the complete array.
pub struct EventLog {
    empty: bool,
    entries: Ghost<Seq<Seq<u8>>>,
    written: Ghost<Seq<u8>>,
}

impl EventLog {
    /// The entries framed so far.
    pub closed spec fn entries(&self) -> Seq<Seq<u8>> {
        self.entries@
    }

    /// Every byte handed out so far, in order.
    pub closed spec fn written(&self) -> Seq<u8> {
        self.written@
    }

    pub closed spec fn wf(&self) -> bool {
        &&& self.empty == (self.entries@.len() == 0)
        &&& self.written@ == open_log_text(self.entries@)
    }

    /// Starts a log; the bytes returned open it.
    pub fn open() -> (r: (EventLog, Vec<u8>))
        ensures
            r.0.wf(),
            r.0.entries() == Seq::<Seq<u8>>::empty(),
            r.0.written() == r.1@,
            r.1@ == seq![OPEN_BRACKET],
    {
        let head = vec![OPEN_BRACKET];
        let log = EventLog { empty: true, entries: Ghost(Seq::empty()), written: Ghost(head@) };
        proof {
            assert(open_log_text(Seq::<Seq<u8>>::empty()) =~= head@);
        }
        (log, head)
    }

    /// Frames one more entry; the bytes returned follow those handed out before.
    pub fn append(&mut self, entry: &[u8]) -> (r: Vec<u8>)
        requires
            old(self).wf(),
        ensures
            final(self).wf(),
            final(self).entries() == old(self).entries().push(entry@),
            final(self).written() == old(self).written() + r@,
            r@ == if old(self).entries().len() == 0 {
                entry@
            } else {
                seq![COMMA] + entry@
            },
    {
        let mut out: Vec<u8> = Vec::new();
        if !self.empty {
            out.push(COMMA);
        }
        let mut i: usize = 0;
        while i < entry.len()
            invariant
                i <= entry@.len(),
                out@ == (if self.empty { Seq::empty() } else { seq![COMMA] }) + entry@.subrange(0, i as int),
            decreases entry@.len() - i,
        {
            out.push(entry[i]);
            proof {
                assert(out@ =~= (if self.empty { Seq::empty() } else { seq![COMMA] }) + entry@.subrange(0, i + 1));
            }
            i = i + 1;
        }
        proof {
            let old_entries = self.entries@;
            let new_entries = old_entries.push(entry@);
            assert(entry@.subrange(0, entry@.len() as int) =~= entry@);
            assert(new_entries.drop_last() =~= old_entries);
            if old_entries.len() == 0 {
                assert(out@ =~= entry@);
                assert(joined(new_entries) == entry@);
            } else {
                assert(joined(new_entries) == joined(old_entries) + seq![COMMA] + entry@);
            }
            assert(open_log_text(new_entries) =~= self.written@ + out@);
            self.entries = Ghost(new_entries);
            self.written = Ghost(self.written@ + out@);
        }
        self.empty = false;
        out
    }

    /// Ends the log; the bytes returned close it, and with everything
    /// handed out before they make the complete array.
    pub fn close(self) -> (r: Vec<u8>)
        requires
            self.wf(),
        ensures
            r@ == seq![CLOSE_BRACKET, NEWLINE],
            self.written() + r@ == closed_log_text(self.entries()),
    {
        let tail = vec![CLOSE_BRACKET, NEWLINE];
        assert(tail@ =~= seq![CLOSE_BRACKET, NEWLINE]);
        tail
    }
}

} // verus!
