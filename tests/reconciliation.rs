use mesh_analyzer::{
    event_matches_packet, reconcile, Action, CaptureRecord, CapturedFrame, Event, EventIngest,
    LinktypeMismatch, Reconciliation, RecordOutcome, Timestamp, RAW_EVENT_LEN,
};

const STA_A: [u8; 6] = [0x02, 0x11, 0x22, 0x33, 0x44, 0x55];
const STA_B: [u8; 6] = [0x02, 0xaa, 0xbb, 0xcc, 0xdd, 0xee];
const STA_C: [u8; 6] = [0x02, 0x01, 0x02, 0x03, 0x04, 0x05];

struct Fields {
    action: u32,
    frm_ctrl: u16,
    seq_ctrl: u16,
    qos_ctrl: u16,
    addr1: [u8; 6],
    addr2: [u8; 6],
}

fn record(f: &Fields) -> Vec<u8> {
    let mut b = vec![0u8; RAW_EVENT_LEN];
    b[0..6].copy_from_slice(&STA_A);
    b[6..10].copy_from_slice(b"mesh");
    b[24..28].copy_from_slice(&f.action.to_le_bytes());
    b[28..34].copy_from_slice(&STA_C);
    b[46..48].copy_from_slice(&f.frm_ctrl.to_le_bytes());
    b[48..50].copy_from_slice(&f.seq_ctrl.to_le_bytes());
    b[50..52].copy_from_slice(&f.qos_ctrl.to_le_bytes());
    b[52..58].copy_from_slice(&f.addr1);
    b[58..64].copy_from_slice(&f.addr2);
    b[64..70].copy_from_slice(&STA_C);
    b[80..88].copy_from_slice(&5u64.to_le_bytes());
    b
}

fn events_of(records: &[Vec<u8>]) -> Vec<Event> {
    let mut ingest = EventIngest::new(Timestamp { secs: 1_700_000_000, nanos: 0 });
    records.iter().map(|r| ingest.ingest(r).unwrap()).collect()
}

/// A frame behind an 8-byte radiotap header, with a three-address MAC
/// header (plus QoS control when the frame control announces it).
fn frame(frm_ctrl: u16, seq_ctrl: u16, qos: Option<u16>, addr1: [u8; 6], addr2: [u8; 6]) -> Vec<u8> {
    let mut d = vec![0u8, 0, 8, 0, 0, 0, 0, 0];
    d.extend_from_slice(&frm_ctrl.to_le_bytes());
    d.extend_from_slice(&[0, 0]);
    d.extend_from_slice(&addr1);
    d.extend_from_slice(&addr2);
    d.extend_from_slice(&STA_C);
    d.extend_from_slice(&seq_ctrl.to_le_bytes());
    if let Some(q) = qos {
        d.extend_from_slice(&q.to_le_bytes());
    }
    d.extend_from_slice(&[0xde, 0xad, 0xbe, 0xef]);
    d
}

fn whole(data: Vec<u8>) -> CaptureRecord {
    let wire_len = data.len() as u32;
    CaptureRecord::Frame(CapturedFrame { data, wire_len })
}

fn tx_add(seq_ctrl: u16, addr1: [u8; 6]) -> Vec<u8> {
    record(&Fields { action: 3, frm_ctrl: 0x0008, seq_ctrl, qos_ctrl: 0x7777, addr1, addr2: STA_A })
}

#[test]
fn scenario_single_tx_add_matches_first_frame() {
    let mut events = events_of(&[tx_add(0x1230, STA_B)]);
    assert_eq!(*events[0].action(), Action::ACT_TX_ADD);
    assert_eq!(*events[0].qos_ctrl(), None);
    assert_eq!(*events[0].addr4(), None);
    let frames = vec![whole(frame(0x0008, 0x1230, None, STA_B, STA_A))];
    reconcile(&mut events, &frames);
    assert_eq!(events[0].pkts(), &[1]);
}

#[test]
fn scenario_zero_addr1_matches_any_frame_addr1() {
    let mut events = events_of(&[tx_add(0x0040, [0; 6])]);
    let frames = vec![whole(frame(0x0008, 0x0040, None, [0x9e, 0x01, 0x77, 0x42, 0x10, 0xfe], STA_A))];
    reconcile(&mut events, &frames);
    assert_eq!(events[0].pkts(), &[1]);
}

#[test]
fn scenario_truncated_frame_is_skipped_but_counted() {
    let mut events = events_of(&[tx_add(0x0050, STA_B)]);
    let data = frame(0x0008, 0x0050, None, STA_B, STA_A);
    let truncated = CaptureRecord::Frame(CapturedFrame { data: data.clone(), wire_len: data.len() as u32 + 20 });
    let frames = vec![truncated, whole(data)];
    reconcile(&mut events, &frames);
    assert_eq!(events[0].pkts(), &[2]);
}

#[test]
fn scenario_sequence_control_tells_events_apart() {
    let mut events = events_of(&[tx_add(0x0060, STA_B), tx_add(0x0070, STA_B)]);
    let frames = vec![whole(frame(0x0008, 0x0070, None, STA_B, STA_A))];
    reconcile(&mut events, &frames);
    assert!(events[0].pkts().is_empty());
    assert_eq!(events[1].pkts(), &[1]);
}

#[test]
fn unreadable_record_advances_numbering() {
    let mut events = events_of(&[tx_add(0x0080, STA_B)]);
    let data = frame(0x0008, 0x0080, None, STA_B, STA_A);
    let frames = vec![whole(data.clone()), CaptureRecord::Unreadable, whole(data)];
    reconcile(&mut events, &frames);
    assert_eq!(events[0].pkts(), &[1, 3]);
}

#[test]
fn reconciling_twice_gives_same_ascending_lists() {
    let records = [tx_add(0x0090, STA_B), tx_add(0x00a0, [0; 6])];
    let frames = vec![
        whole(frame(0x0008, 0x00a0, None, STA_C, STA_A)),
        whole(frame(0x0008, 0x0090, None, STA_B, STA_A)),
        whole(frame(0x0008, 0x00a0, None, STA_B, STA_A)),
    ];
    let mut first = events_of(&records);
    let mut second = events_of(&records);
    reconcile(&mut first, &frames);
    reconcile(&mut second, &frames);
    for (a, b) in first.iter().zip(second.iter()) {
        assert_eq!(a.pkts(), b.pkts());
        assert!(a.pkts().windows(2).all(|w| w[0] < w[1]));
    }
    assert_eq!(first[0].pkts(), &[2]);
    assert_eq!(first[1].pkts(), &[1, 3]);
}

#[test]
fn qos_frames_compare_qos_control() {
    let rec = record(&Fields { action: 8, frm_ctrl: 0x0088, seq_ctrl: 0x10, qos_ctrl: 0x0005, addr1: STA_B, addr2: STA_A });
    let events = events_of(&[rec]);
    assert_eq!(*events[0].qos_ctrl(), Some(0x0005));
    let good = frame(0x0088, 0x10, Some(0x0005), STA_B, STA_A);
    let bad = frame(0x0088, 0x10, Some(0x0006), STA_B, STA_A);
    assert!(event_matches_packet(&events[0], &good, good.len()));
    assert!(!event_matches_packet(&events[0], &bad, bad.len()));
}

#[test]
fn matcher_rejects_inputs_shorter_than_four_bytes() {
    let events = events_of(&[tx_add(0, [0; 6])]);
    for n in 0..4 {
        let data = vec![0u8; n];
        assert!(!event_matches_packet(&events[0], &data, n));
    }
}

#[test]
fn matcher_rejects_short_headers() {
    let events = events_of(&[tx_add(0x0100, STA_B)]);
    let full = frame(0x0008, 0x0100, None, STA_B, STA_A);
    assert!(event_matches_packet(&events[0], &full, full.len()));
    // layer-1 length leaves no byte for the frame control
    let mut big_l1 = full.clone();
    big_l1[2] = 0xff;
    assert!(!event_matches_packet(&events[0], &big_l1, big_l1.len()));
    // MAC header cut short: 8 + 24 bytes are needed
    assert!(!event_matches_packet(&events[0], &full, 31));
    assert!(event_matches_packet(&events[0], &full, 32));
}

#[test]
fn matcher_wildcard_only_for_zero_address() {
    let events = events_of(&[tx_add(0x0200, [0; 6]), tx_add(0x0200, STA_B)]);
    let other = frame(0x0008, 0x0200, None, STA_C, STA_A);
    assert!(event_matches_packet(&events[0], &other, other.len()));
    assert!(!event_matches_packet(&events[1], &other, other.len()));
    let zero_addr2 = record(&Fields { action: 3, frm_ctrl: 0x0008, seq_ctrl: 0x0200, qos_ctrl: 0, addr1: STA_B, addr2: [0; 6] });
    let events = events_of(&[zero_addr2]);
    let f = frame(0x0008, 0x0200, None, STA_B, STA_C);
    assert!(event_matches_packet(&events[0], &f, f.len()));
}

#[test]
fn matcher_reads_four_address_headers() {
    let rec = record(&Fields { action: 9, frm_ctrl: 0x0388, seq_ctrl: 0x20, qos_ctrl: 0x0001, addr1: STA_B, addr2: STA_A });
    let events = events_of(&[rec]);
    assert!(events[0].addr4().is_some());
    let mut d = vec![0u8, 0, 8, 0, 0, 0, 0, 0];
    d.extend_from_slice(&0x0388u16.to_le_bytes());
    d.extend_from_slice(&[0, 0]);
    d.extend_from_slice(&STA_B);
    d.extend_from_slice(&STA_A);
    d.extend_from_slice(&STA_C);
    d.extend_from_slice(&0x20u16.to_le_bytes());
    d.extend_from_slice(&[0; 6]);
    d.extend_from_slice(&0x0001u16.to_le_bytes());
    assert_eq!(d.len(), 8 + 32);
    assert!(event_matches_packet(&events[0], &d, d.len()));
    assert!(!event_matches_packet(&events[0], &d, d.len() - 1));
}

#[test]
fn linktype_must_be_radiotap() {
    assert!(Reconciliation::new(127).is_ok());
    assert_eq!(Reconciliation::new(1).err(), Some(LinktypeMismatch { found: 1 }));
}

#[test]
fn step_by_step_pass_reports_outcomes() {
    let mut events = events_of(&[tx_add(0x0300, STA_B)]);
    let mut pass = Reconciliation::new(127).unwrap();
    let data = frame(0x0008, 0x0300, None, STA_B, STA_A);
    let cut = CaptureRecord::Frame(CapturedFrame { data: data.clone(), wire_len: 500 });
    assert_eq!(pass.on_record(&mut events, &cut), (1, RecordOutcome::Truncated));
    assert_eq!(pass.on_record(&mut events, &CaptureRecord::Unreadable), (2, RecordOutcome::Unreadable));
    assert_eq!(pass.on_record(&mut events, &whole(data)), (3, RecordOutcome::Compared));
    assert_eq!(events[0].pkts(), &[3]);
    let mut e = events.remove(0);
    e.push_packet(9);
    assert_eq!(e.pkts(), &[3, 9]);
}
