//! Correlation of mesh path-table events with captured wireless frames.
//!
//! The kernel side reports every mutation of the mesh path table as a
//! fixed-layout record ([`RawEvent`]); each record becomes a domain
//! [`Event`] with the next identifier ([`EventIngest`]), and is written out
//! at once as one entry of a JSON array ([`EventLog`]). Frames captured off
//! the air during the same window are later matched against the events
//! ([`event_matches_packet`]), and the sequence numbers of the matching
//! frames are appended to the events ([`reconcile`], [`Reconciliation`]).
mod action;
mod bytes;
mod event;
mod header;
mod ingest;
mod mac;
mod matcher;
mod raw;
mod reconcile;
mod time;

pub use crate::action::{
    action_code, action_description, action_name, is_add_family, is_assign_family,
    is_frame_caused, is_removal_family, is_unknown_or_change_family, Action, ACTION_COUNT,
};
pub use crate::bytes::le_value;
pub use crate::event::{
    built_from_raw, iface_text, nexthops_of, trim_leading_nul, trim_nul, trim_trailing_nul,
    utf8_lossy, Event, EventView,
};
pub use crate::header::{
    addr4_present, mac_header_len, qos_present, CHECK_QOS, HAS_ADDR4, HAS_QOS, HDR_SIZE_3ADDR,
    HDR_SIZE_4ADDR,
};
pub use crate::ingest::{
    closed_log_text, joined, open_log_text, EventIngest, EventLog, IngestError, CLOSE_BRACKET,
    COMMA, NEWLINE, OPEN_BRACKET,
};
pub use crate::mac::{
    addr_matches, colon_octets_text, is_zero_addr, mac_text, octet_text, MacAddr, MacAddrT,
    ETH_ALEN, HEX_DIGITS,
};
pub use crate::matcher::{
    event_matches_packet, frame_control, frame_matches, header_complete, layer1_len, le16_at,
    lemma_addr1_wildcard, lemma_addr2_wildcard,
};
pub use crate::raw::{decodes_to, field_value, DecodeError, RawEvent, RAW_EVENT_LEN};
pub use crate::reconcile::{
    lemma_reconcile_repeatable, match_list, outcome_of, reconcile, record_matches,
    with_pkts, CaptureRecord, CapturedFrame, LinktypeMismatch, Reconciliation, RecordOutcome,
    LINKTYPE_IEEE802_11_RADIOTAP,
};
pub use crate::time::{timestamp_limit, Timestamp, NANOS_PER_SEC};
