use sparko_esp_std::captive_dns::{build_dns_response, DNS_HEADER_LEN};

fn sample_query() -> Vec<u8> {
    // id 0xabcd, RD set, one question for "a.b" type A class IN
    vec![
        0xab, 0xcd, 0x01, 0x00, 0x00, 0x01, 0x00, 0x00, 0x00, 0x00, 0x00, 0x00, 0x01, b'a', 0x01,
        b'b', 0x00, 0x00, 0x01, 0x00, 0x01,
    ]
}

#[test]
fn dns_response_exact_bytes() {
    let q = sample_query();
    let r = build_dns_response(&q, &[192, 168, 71, 1]);
    let mut expected = q.clone();
    expected[2] = 0x81;
    expected[3] = 0x80;
    expected[6] = 0x00;
    expected[7] = 0x01;
    expected.extend_from_slice(&[
        0xc0, 0x0c, 0x00, 0x01, 0x00, 0x01, 0x00, 0x00, 0x00, 0x3c, 0x00, 0x04, 192, 168, 71, 1,
    ]);
    assert_eq!(r, expected);
}

#[test]
fn dns_response_keeps_id_and_question_and_appends_sixteen_bytes() {
    let q = sample_query();
    let r = build_dns_response(&q, &[10, 0, 0, 1]);
    assert_eq!(r.len(), q.len() + 16);
    assert_eq!(&r[0..2], &q[0..2]);
    assert_eq!(r[2] & 0x80, 0x80);
    assert_eq!((r[6], r[7]), (0, 1));
    assert_eq!(&r[8..q.len()], &q[8..]);
    assert_eq!(&r[r.len() - 4..], &[10, 0, 0, 1]);
}

#[test]
fn dns_response_on_bare_header_already_marked_reply() {
    let q = vec![0, 1, 0x80, 0x80, 0, 0, 0, 5, 0, 0, 0, 0];
    assert_eq!(q.len(), DNS_HEADER_LEN);
    let r = build_dns_response(&q, &[1, 2, 3, 4]);
    assert_eq!(&r[0..12], &[0, 1, 0x80, 0x80, 0, 0, 0, 1, 0, 0, 0, 0]);
    assert_eq!(r.len(), 28);
}
