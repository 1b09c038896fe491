use simple_dns::rdata::RData;
use simple_dns::{Name, Packet, Question, CLASS, TYPE};
use sparko_esp_std::mdns::{announce_due, MdnsService, PacketOutcome, ANNOUNCE_INTERVAL_NANOS, RECORD_TTL};

fn query(id: u16, name: &str, qtype: TYPE) -> Vec<u8> {
    let mut p = Packet::new_query(id);
    p.questions.push(Question::new(Name::new_unchecked(name), qtype.into(), CLASS::IN.into(), false));
    p.build_bytes_vec().unwrap()
}

fn a_answer(bytes: &[u8]) -> (u16, String, u32, u32) {
    let p = Packet::parse(bytes).unwrap();
    assert_eq!(p.answers.len(), 1);
    let rr = &p.answers[0];
    match &rr.rdata {
        RData::A(a) => (p.id(), rr.name.to_string(), rr.ttl, a.address),
        other => panic!("{:?}", other),
    }
}

#[test]
fn mdns_service_name() {
    let s = MdnsService::new("sparko", 0xC0A8_0102);
    assert_eq!(s.hostname_local, "sparko.local");
    assert_eq!(s.ip, 0xC0A8_0102);
}

#[test]
fn answers_a_query_for_own_name() {
    let s = MdnsService::new("sparko", 0xC0A8_0102);
    match s.on_packet(&query(0x1234, "sparko.local", TYPE::A)) {
        PacketOutcome::Reply(b) => {
            assert_eq!(a_answer(&b), (0x1234, "sparko.local".to_string(), RECORD_TTL, 0xC0A8_0102));
        }
        other => panic!("{:?}", other),
    }
}

#[test]
fn name_match_ignores_ascii_case() {
    let s = MdnsService::new("sparko", 0x0A00_0005);
    assert!(matches!(s.on_packet(&query(7, "SPARKO.Local", TYPE::A)), PacketOutcome::Reply(_)));
}

#[test]
fn ignores_other_names_and_types() {
    let s = MdnsService::new("sparko", 0x0A00_0005);
    assert!(matches!(s.on_packet(&query(7, "other.local", TYPE::A)), PacketOutcome::NoReply));
    assert!(matches!(s.on_packet(&query(7, "sparko.local", TYPE::AAAA)), PacketOutcome::NoReply));
    assert!(matches!(s.on_packet(&query(7, "sparko", TYPE::A)), PacketOutcome::NoReply));
}

#[test]
fn answers_any_query() {
    let s = MdnsService::new("sparko", 0x0A00_0005);
    let mut p = Packet::new_query(9);
    p.questions.push(Question::new(Name::new_unchecked("sparko.local"), simple_dns::QTYPE::ANY, CLASS::IN.into(), false));
    let bytes = p.build_bytes_vec().unwrap();
    assert!(matches!(s.on_packet(&bytes), PacketOutcome::Reply(_)));
}

#[test]
fn garbage_and_empty_packets() {
    let s = MdnsService::new("sparko", 0x0A00_0005);
    assert!(matches!(s.on_packet(&[1, 2, 3]), PacketOutcome::NoReply));
    let empty = Packet::new_query(3).build_bytes_vec().unwrap();
    assert!(matches!(s.on_packet(&empty), PacketOutcome::NoQuestions));
}

#[test]
fn announcement_and_address_change() {
    let mut s = MdnsService::new("sparko", 0x0A00_0005);
    let a = s.announcement().unwrap();
    assert_eq!(a_answer(&a), (0, "sparko.local".to_string(), RECORD_TTL, 0x0A00_0005));
    assert!(s.on_ip_update(0x0A00_0005).is_none());
    let b = s.on_ip_update(0x0A00_0006).unwrap();
    assert_eq!(a_answer(&b).3, 0x0A00_0006);
    assert_eq!(s.ip, 0x0A00_0006);
    match s.on_packet(&query(1, "sparko.local", TYPE::A)) {
        PacketOutcome::Reply(r) => assert_eq!(a_answer(&r).3, 0x0A00_0006),
        other => panic!("{:?}", other),
    }
}

#[test]
fn announcement_interval() {
    assert!(!announce_due(ANNOUNCE_INTERVAL_NANOS));
    assert!(announce_due(ANNOUNCE_INTERVAL_NANOS + 1));
    assert!(!announce_due(0));
    assert_eq!(ANNOUNCE_INTERVAL_NANOS, 300 * 1_000_000_000);
}

fn expected_reply(id: u16, labels: &[&str], ttl: u32, address: u32) -> Vec<u8> {
    let mut v = vec![(id >> 8) as u8, id as u8, 0x80, 0, 0, 0, 0, 1, 0, 0, 0, 0];
    for l in labels {
        v.push(l.len() as u8);
        v.extend_from_slice(l.as_bytes());
    }
    v.push(0);
    v.extend_from_slice(&[0, 1, 0, 1]);
    v.extend_from_slice(&ttl.to_be_bytes());
    v.extend_from_slice(&[0, 4]);
    v.extend_from_slice(&address.to_be_bytes());
    v
}

#[test]
fn announcement_exact_bytes() {
    let s = MdnsService::new("sparko", 0x0A00_0005);
    assert_eq!(s.announcement().unwrap(), expected_reply(0, &["sparko", "local"], RECORD_TTL, 0x0A00_0005));
}

#[test]
fn reply_exact_bytes_keep_query_id() {
    let s = MdnsService::new("sparko", 0xC0A8_0102);
    match s.on_packet(&query(0x1234, "SPARKO.local", TYPE::A)) {
        PacketOutcome::Reply(b) => {
            assert_eq!(b, expected_reply(0x1234, &["sparko", "local"], 120, 0xC0A8_0102))
        }
        other => panic!("{:?}", other),
    }
}

#[test]
fn empty_labels_are_skipped_in_reply() {
    let s = MdnsService::new("a.", 1);
    assert_eq!(s.hostname_local, "a..local");
    assert_eq!(s.announcement().unwrap(), expected_reply(0, &["a", "local"], RECORD_TTL, 1));
}
