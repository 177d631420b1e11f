use mesh_analyzer::{
    Action, DecodeError, Event, EventIngest, EventLog, IngestError, MacAddr, MacAddrT, RawEvent,
    Timestamp, ACTION_COUNT, RAW_EVENT_LEN,
};

fn marked_record() -> Vec<u8> {
    let mut b = vec![0u8; RAW_EVENT_LEN];
    for (i, x) in b.iter_mut().enumerate() {
        *x = i as u8;
    }
    b[24..28].copy_from_slice(&7u32.to_le_bytes());
    b
}

#[allow(non_snake_case)]
#[test]
fn bindgen_test_layout_Event() {
    let b = marked_record();
    let raw = RawEvent::decode(&b).unwrap();
    assert_eq!(raw.mac.0[0], 0);
    assert_eq!(raw.iface[0], 6);
    assert_eq!(raw.iface[15], 21);
    assert_eq!(raw.action.code() as usize, 7);
    assert_eq!(raw.dst.0[0], 28);
    assert_eq!(raw.old_nh.0[0], 34);
    assert_eq!(raw.new_nh.0[0], 40);
    assert_eq!(raw.frm_ctrl, u16::from_le_bytes([46, 47]));
    assert_eq!(raw.seq_ctrl, u16::from_le_bytes([48, 49]));
    assert_eq!(raw.qos_ctrl, u16::from_le_bytes([50, 51]));
    assert_eq!(raw.addr1.0[0], 52);
    assert_eq!(raw.addr2.0[0], 58);
    assert_eq!(raw.addr3.0[0], 64);
    assert_eq!(raw.addr4.0[0], 70);
    assert_eq!(raw.addr4.0[5], 75);
    // the fields the kernel probe fills follow the 76-byte core, 4-byte aligned
    assert_eq!(76 % 4, 0);
    assert!(raw.has_nh);
    assert_eq!(raw.ts, u64::from_le_bytes([80, 81, 82, 83, 84, 85, 86, 87]));
}

#[test]
fn decode_rejects_wrong_length() {
    assert_eq!(RawEvent::decode(&[0u8; 76]).err(), Some(DecodeError::BadLength));
    assert_eq!(RawEvent::decode(&[0u8; 89]).err(), Some(DecodeError::BadLength));
    assert_eq!(RawEvent::decode(&[]).err(), Some(DecodeError::BadLength));
}

#[test]
fn decode_rejects_unknown_action() {
    let mut b = marked_record();
    b[24..28].copy_from_slice(&ACTION_COUNT.to_le_bytes());
    assert_eq!(RawEvent::decode(&b).err(), Some(DecodeError::UnknownAction(19)));
    b[24..28].copy_from_slice(&0x0102_0304u32.to_le_bytes());
    assert_eq!(RawEvent::decode(&b).err(), Some(DecodeError::UnknownAction(0x0102_0304)));
}

fn raw_with(action: Action, has_nh: bool, frm_ctrl: u16) -> RawEvent {
    let mut b = marked_record();
    b[24..28].copy_from_slice(&action.code().to_le_bytes());
    b[76] = has_nh as u8;
    b[46..48].copy_from_slice(&frm_ctrl.to_le_bytes());
    RawEvent::decode(&b).unwrap()
}

const BOOT: Timestamp = Timestamp { secs: 1_000, nanos: 999_999_000 };

#[test]
fn next_hops_follow_the_action_family() {
    for code in 0..ACTION_COUNT {
        let action = Action::from_code(code).unwrap();
        for has_nh in [false, true] {
            let raw = raw_with(action, has_nh, 0);
            let e = Event::from_raw(raw, 1, BOOT).unwrap();
            let name = action.name();
            let (old, new) = (*e.old_nh(), *e.new_nh());
            if name.ends_with("_ADD") {
                assert_eq!((old, new), (None, None), "{name}");
            } else if name.ends_with("UNKNOWN") || name.ends_with("CHG") {
                assert_eq!((old, new), (Some(raw.old_nh), Some(raw.new_nh)), "{name}");
            } else if name.ends_with("ASG") {
                assert_eq!((old, new), (None, Some(raw.new_nh)), "{name}");
            } else {
                assert!(name.ends_with("DEL") || name == "KR_EXP");
                let expected_old = if has_nh { Some(raw.old_nh) } else { None };
                assert_eq!((old, new), (expected_old, None), "{name}");
            }
        }
    }
}

#[test]
fn qos_and_addr4_follow_frame_control() {
    let cases: [(u16, bool, bool); 6] = [
        (0x0008, false, false),
        (0x0088, true, false),
        (0x008c, false, false),
        (0x0388, true, true),
        (0x0300, false, true),
        (0x0100, false, false),
    ];
    for (fc, qos, addr4) in cases {
        let raw = raw_with(Action::ACT_RX_CHG, false, fc);
        let e = Event::from_raw(raw, 1, BOOT).unwrap();
        assert_eq!(e.qos_ctrl().is_some(), qos, "{fc:#x}");
        assert_eq!(e.addr4().is_some(), addr4, "{fc:#x}");
        if qos {
            assert_eq!(*e.qos_ctrl(), Some(raw.qos_ctrl));
        }
        if addr4 {
            assert_eq!(*e.addr4(), Some(raw.addr4));
        }
    }
}

#[test]
fn from_raw_copies_fields_and_adds_boot_time() {
    let mut b = vec![0u8; RAW_EVENT_LEN];
    b[0..6].copy_from_slice(&[1, 2, 3, 4, 5, 6]);
    b[6..11].copy_from_slice(b"wlan0");
    b[24..28].copy_from_slice(&18u32.to_le_bytes());
    b[28..34].copy_from_slice(&[9; 6]);
    b[80..88].copy_from_slice(&2_500_000_000u64.to_le_bytes());
    let raw = RawEvent::decode(&b).unwrap();
    let e = Event::from_raw(raw, 42, BOOT).unwrap();
    assert_eq!(*e.id(), 42);
    assert_eq!(*e.ts(), Timestamp { secs: 1_003, nanos: 499_999_000 });
    assert!(e.pkts().is_empty());
    assert_eq!(*e.action(), Action::ACT_KR_EXP);
    assert_eq!(*e.mac(), MacAddr([1, 2, 3, 4, 5, 6]));
    assert_eq!(e.iface(), "wlan0");
    assert_eq!(*e.dst(), MacAddr([9; 6]));
    assert!(!e.from_pkt());
}

#[test]
fn interface_name_is_trimmed_of_nul_bytes() {
    let mut b = vec![0u8; RAW_EVENT_LEN];
    b[8..12].copy_from_slice(b"mp-0");
    let raw = RawEvent::decode(&b).unwrap();
    let e = Event::from_raw(raw, 1, BOOT).unwrap();
    assert_eq!(e.iface(), "mp-0");
    let b = vec![0u8; RAW_EVENT_LEN];
    let e = Event::from_raw(RawEvent::decode(&b).unwrap(), 1, BOOT).unwrap();
    assert_eq!(e.iface(), "");
}

#[test]
fn timestamp_addition() {
    let t = Timestamp { secs: 5, nanos: 600_000_000 };
    assert_eq!(t.checked_add_nanos(400_000_000), Some(Timestamp { secs: 6, nanos: 0 }));
    assert_eq!(t.checked_add_nanos(0), Some(t));
    assert_eq!(t.checked_add_nanos(u64::MAX), Some(Timestamp { secs: 18_446_744_079, nanos: 309_551_615 }));
    let late = Timestamp { secs: u64::MAX, nanos: 999_999_999 };
    assert_eq!(late.checked_add_nanos(0), Some(late));
    assert_eq!(late.checked_add_nanos(1), None);
}

#[test]
fn ingest_numbers_events_from_one() {
    let mut ingest = EventIngest::new(BOOT);
    let good = marked_record();
    let e1 = ingest.ingest(&good).unwrap();
    assert_eq!(ingest.ingest(&good[..10]).err(), Some(IngestError::Decode(DecodeError::BadLength)));
    let e2 = ingest.ingest(&good).unwrap();
    let e3 = ingest.ingest(&good).unwrap();
    assert_eq!((*e1.id(), *e2.id(), *e3.id()), (1, 2, 3));
}

#[test]
fn ingest_reports_timestamp_overflow() {
    let mut ingest = EventIngest::new(Timestamp { secs: u64::MAX, nanos: 0 });
    let mut b = marked_record();
    b[80..88].copy_from_slice(&1_000_000_000u64.to_le_bytes());
    assert_eq!(ingest.ingest(&b).err(), Some(IngestError::TimestampOverflow));
    b[80..88].copy_from_slice(&999_999_999u64.to_le_bytes());
    assert_eq!(*ingest.ingest(&b).unwrap().id(), 1);
}

#[test]
fn ingest_reports_unknown_action() {
    let mut ingest = EventIngest::new(BOOT);
    let mut b = marked_record();
    b[24..28].copy_from_slice(&200u32.to_le_bytes());
    assert_eq!(ingest.ingest(&b).err(), Some(IngestError::Decode(DecodeError::UnknownAction(200))));
}

#[test]
fn action_names_and_codes() {
    assert_eq!(Action::ACT_TX_ADD.name(), "TX_ADD");
    assert_eq!(Action::ACT_KR_EXP.name(), "KR_EXP");
    assert_eq!(Action::ACT_US_ADD_ASG.name(), "US_ADD_ASG");
    assert_eq!(Action::ACT_KR_EXP.detailed(), "A mesh path was deleted because it expired.");
    assert_eq!(
        Action::ACT_RX_CHG.detailed(),
        "A packet reception caused the update of a nexthop to a mesh path that already had one."
    );
    for code in 0..ACTION_COUNT {
        assert_eq!(Action::from_code(code).unwrap().code(), code);
    }
    assert_eq!(Action::from_code(ACTION_COUNT), None);
    assert_eq!(Action::ACT_TX_UNKNOWN.code(), 0);
    assert_eq!(Action::ACT_US_DEL.code(), 17);
}

#[test]
fn mac_text_form() {
    assert_eq!(MacAddr([0x02, 0xab, 0x00, 0x10, 0xff, 0x9c]).hex(), "02:ab:00:10:ff:9c");
    assert_eq!(MacAddr([0; 6]).hex(), "00:00:00:00:00:00");
    assert!(MacAddr([0; 6]).is_wildcard());
    assert!(!MacAddr([0, 0, 0, 0, 0, 1]).is_wildcard());
}

#[test]
fn event_log_frames_a_json_array() {
    let (mut log, head) = EventLog::open();
    let mut out = head;
    out.extend(log.append(b"{\"id\":1}"));
    out.extend(log.append(b"{\"id\":2}"));
    out.extend(log.append(b"{\"id\":3}"));
    assert_eq!(out, b"[{\"id\":1},{\"id\":2},{\"id\":3}".to_vec());
    out.extend(log.close());
    assert_eq!(out, b"[{\"id\":1},{\"id\":2},{\"id\":3}]\n".to_vec());
    let (empty, head) = EventLog::open();
    let mut out = head;
    out.extend(empty.close());
    assert_eq!(out, b"[]\n".to_vec());
}

fn rebuilt(e: &Event) -> Event {
    Event::restore(
        *e.id(),
        *e.ts(),
        e.pkts().to_vec(),
        *e.action(),
        *e.mac(),
        e.iface().to_string(),
        *e.dst(),
        *e.old_nh(),
        *e.new_nh(),
        *e.frm_ctrl(),
        *e.seq_ctrl(),
        *e.qos_ctrl(),
        *e.addr1(),
        *e.addr2(),
        *e.addr3(),
        *e.addr4(),
    )
}

fn same_fields(a: &Event, b: &Event) -> bool {
    a.id() == b.id()
        && a.ts() == b.ts()
        && a.pkts() == b.pkts()
        && a.action() == b.action()
        && a.mac() == b.mac()
        && a.iface() == b.iface()
        && a.dst() == b.dst()
        && a.old_nh() == b.old_nh()
        && a.new_nh() == b.new_nh()
        && a.frm_ctrl() == b.frm_ctrl()
        && a.seq_ctrl() == b.seq_ctrl()
        && a.qos_ctrl() == b.qos_ctrl()
        && a.addr1() == b.addr1()
        && a.addr2() == b.addr2()
        && a.addr3() == b.addr3()
        && a.addr4() == b.addr4()
}

#[test]
fn event_fields_restore_to_an_equal_event() {
    let raw = raw_with(Action::ACT_TX_CHG, true, 0x0388);
    let mut e = Event::from_raw(raw, 7, BOOT).unwrap();
    assert!(same_fields(&e, &rebuilt(&e)));
    e.push_packet(3);
    e.push_packet(11);
    let r = rebuilt(&e);
    assert!(same_fields(&e, &r));
    assert_eq!(r.pkts(), &[3, 11]);
    assert_eq!(r.compare_addr1(&raw.addr1.0), e.compare_addr1(&raw.addr1.0));
    assert!(r.compare_addr2(&raw.addr2.0));
    assert!(!r.compare_addr2(&[0xff; 6]));
    assert!(r.from_pkt());
}
