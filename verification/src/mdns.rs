//! The mDNS responder: it answers A (and ANY) queries for `<hostname>.local`
//! with the station's IPv4 address and announces that address when it changes
//! and every five minutes.
use vstd::prelude::*;
use vstd::string::*;

use crate::text;

verus! {

/// The DNS type code of an A record query.
pub const QTYPE_A: u16 = 1;

/// The DNS type code of a query for all records.
pub const QTYPE_ANY: u16 = 255;

/// The TTL, in seconds, of the A record the responder sends.
pub const RECORD_TTL: u32 = 120;

/// The interval between unsolicited announcements, in nanoseconds (300 s).
pub const ANNOUNCE_INTERVAL_NANOS: u128 = 300_000_000_000;

/// One question of a DNS query: the queried name as text and its type code.
#[derive(Debug)]
pub struct DnsQuestion {
    pub name: String,
    pub qtype: u16,
}

/// A parsed DNS packet: its id and its questions.
#[derive(Debug)]
pub struct DnsQuery {
    pub id: u16,
    pub questions: Vec<DnsQuestion>,
}

impl DnsQuery {
    pub open spec fn view(&self) -> (u16, Seq<(Seq<char>, u16)>) {
        (self.id, self.questions@.map_values(|q: DnsQuestion| (q.name@, q.qtype)))
    }
}

/// What `simple_dns::Packet::parse` makes of `packet`: its id and its questions,
/// each as the text of its name (labels joined by dots) and its type code; or
/// nothing when the packet does not parse.
pub uninterp spec fn parsed_dns_packet(packet: Seq<u8>) -> Option<(u16, Seq<(Seq<char>, u16)>)>;

/// The bytes that `simple_dns::Packet::build_bytes_vec` writes for a reply with
/// the given id whose only answer is an A record (class IN) for `name`.
pub uninterp spec fn a_record_reply_bytes(id: u16, name: Seq<char>, ttl: u32, address: u32) -> Seq<u8>;

/// A 16-bit number in network byte order.
pub open spec fn be16_bytes(v: u16) -> Seq<u8> {
    seq![(v / 256) as u8, (v % 256) as u8]
}

/// A 32-bit number in network byte order.
pub open spec fn be32_bytes(v: u32) -> Seq<u8> {
    seq![(v / 16777216) as u8, ((v / 65536) % 256) as u8, ((v / 256) % 256) as u8, (v % 256) as u8]
}

/// One label in wire format: its length byte and its bytes; an empty label
/// is left out.
pub open spec fn label_wire(label: Seq<u8>) -> Seq<u8> {
    if label.len() == 0 {
        Seq::empty()
    } else {
        seq![(label.len() % 256) as u8] + label
    }
}

/// A name in wire format, split at its dots: the rest `s` of the text, with
/// `label` the part of the current label read so far; a zero byte ends it.
pub open spec fn name_wire_from(s: Seq<u8>, label: Seq<u8>) -> Seq<u8>
    decreases s.len(),
{
    if s.len() == 0 {
        label_wire(label) + seq![0u8]
    } else if s[0] == 46u8 {
        label_wire(label) + name_wire_from(s.drop_first(), Seq::empty())
    } else {
        name_wire_from(s.drop_first(), label.push(s[0]))
    }
}

/// A reply packet with one A record: the header (the id, only the response
/// flag set, one answer), the name, type A, class IN, the TTL, a data length
/// of 4 and the address.
pub open spec fn a_record_reply_layout(id: u16, name: Seq<char>, ttl: u32, address: u32) -> Seq<u8> {
    be16_bytes(id) + seq![0x80u8, 0u8, 0u8, 0u8, 0u8, 1u8, 0u8, 0u8, 0u8, 0u8]
        + name_wire_from(vstd::utf8::encode_utf8(name), Seq::empty()) + seq![0u8, 1u8, 0u8, 1u8]
        + be32_bytes(ttl) + seq![0u8, 4u8] + be32_bytes(address)
}

/// The reply the responder sends: its layout is stated for names without a
/// backslash (whose escapes simple_dns keeps as written) and named otherwise.
pub open spec fn a_record_reply(id: u16, name: Seq<char>, ttl: u32, address: u32) -> Seq<u8> {
    if name.contains('\\') {
        a_record_reply_bytes(id, name, ttl, address)
    } else {
        a_record_reply_layout(id, name, ttl, address)
    }
}

/// `simple_dns::Packet::parse`, with the questions of the packet read out as
/// plain values (the name through its `Display`, the type through
/// `u16::from`). What the parse gives is named, not stated.
#[verifier::external_body]
fn parse_dns_packet(packet: &[u8]) -> (res: Option<DnsQuery>)
    ensures
        match res {
            Some(q) => parsed_dns_packet(packet@) == Some(q.view()),
            None => parsed_dns_packet(packet@) is None,
        },
{
    match simple_dns::Packet::parse(packet) {
        Ok(p) => Some(DnsQuery {
            id: p.id(),
            questions: p.questions.iter().map(
                |q| DnsQuestion { name: q.qname.to_string(), qtype: u16::from(q.qtype) },
            ).collect(),
        }),
        Err(_) => None,
    }
}

/// `simple_dns::Packet::new_reply(id)` with one answer, an A record for
/// `Name::new_unchecked(name)` of class IN with the given TTL and address,
/// then `build_bytes_vec`. Writing into a `Vec` cannot fail. For a name
/// without a backslash the bytes are those of `a_record_reply_layout`: the
/// header, the labels split at dots (empty ones skipped, each behind its
/// length), type, class, TTL, data length and address; with a backslash,
/// whose escapes are kept as written, the bytes are named, not stated.
#[verifier::external_body]
fn build_a_record_reply(id: u16, name: &str, ttl: u32, address: u32) -> (res: Option<Vec<u8>>)
    ensures
        res is Some,
        res->0@ == a_record_reply_bytes(id, name@, ttl, address),
        !name@.contains('\\') ==> res->0@ == a_record_reply_layout(id, name@, ttl, address),
{
    let mut pkt = simple_dns::Packet::new_reply(id);
    pkt.answers.push(simple_dns::ResourceRecord::new(
        simple_dns::Name::new_unchecked(name),
        simple_dns::CLASS::IN,
        ttl,
        simple_dns::rdata::RData::A(simple_dns::rdata::A { address }),
    ));
    pkt.build_bytes_vec().ok()
}

/// A question is one the responder answers: its name equals the responder's
/// name up to ASCII case and it asks for an A record or for all records.
pub open spec fn question_matches(q: (Seq<char>, u16), hostname_local: Seq<char>) -> bool {
    text::eq_ignore_ascii_case(q.0, hostname_local) && (q.1 == QTYPE_A || q.1 == QTYPE_ANY)
}

/// Some question of the list is one the responder answers.
pub open spec fn any_question_matches(qs: Seq<(Seq<char>, u16)>, hostname_local: Seq<char>) -> bool {
    exists|i: int| 0 <= i < qs.len() && question_matches(#[trigger] qs[i], hostname_local)
}

/// What the responder does with a packet it received.
#[derive(Debug)]
pub enum PacketOutcome {
    /// Send these bytes back to the sender.
    Reply(Vec<u8>),
    /// The packet does not parse or asks for nothing of the responder: send
    /// nothing.
    NoReply,
    /// The packet parses and has no questions: send nothing and skip the rest
    /// of this round (the periodic announcement included).
    NoQuestions,
}

/// The outcome for a packet that parses to `q`, for a responder named
/// `hostname_local` at `ip`: no questions, a reply that answers with the own
/// A record under the query's id when some question asks for it, else nothing.
pub open spec fn query_outcome_spec(q: (u16, Seq<(Seq<char>, u16)>), hostname_local: Seq<char>, ip: u32) -> Option<Option<Seq<u8>>> {
    if q.1.len() == 0 {
        None
    } else if any_question_matches(q.1, hostname_local) {
        Some(Some(a_record_reply(q.0, hostname_local, RECORD_TTL, ip)))
    } else {
        Some(None)
    }
}

/// Decides whether some question asks for the responder's record.
pub fn should_reply(questions: &Vec<DnsQuestion>, hostname_local: &str) -> (b: bool)
    ensures
        b == any_question_matches(
            questions@.map_values(|q: DnsQuestion| (q.name@, q.qtype)),
            hostname_local@,
        ),
{
    let ghost qs = questions@.map_values(|q: DnsQuestion| (q.name@, q.qtype));
    let mut i: usize = 0;
    while i < questions.len()
        invariant
            i <= questions@.len(),
            qs == questions@.map_values(|q: DnsQuestion| (q.name@, q.qtype)),
            forall|t: int| 0 <= t < i ==> !question_matches(#[trigger] qs[t], hostname_local@),
        decreases questions@.len() - i,
    {
        let q = &questions[i];
        let name_match = text::str_eq_ignore_ascii_case(q.name.as_str(), hostname_local);
        let type_match = q.qtype == QTYPE_A || q.qtype == QTYPE_ANY;
        assert(qs[i as int] == (q.name@, q.qtype));
        if name_match && type_match {
            return true;
        }
        i = i + 1;
    }
    false
}

/// The outcome for a parsed query.
pub fn query_outcome(q: &DnsQuery, hostname_local: &str, ip: u32) -> (out: PacketOutcome)
    ensures
        match query_outcome_spec(q.view(), hostname_local@, ip) {
            None => out is NoQuestions,
            Some(Some(b)) => out matches PacketOutcome::Reply(r) && r@ == b,
            Some(None) => out is NoReply,
        },
{
    if q.questions.len() == 0 {
        return PacketOutcome::NoQuestions;
    }
    if should_reply(&q.questions, hostname_local) {
        match build_a_record_reply(q.id, hostname_local, RECORD_TTL, ip) {
            Some(b) => PacketOutcome::Reply(b),
            None => PacketOutcome::NoReply,
        }
    } else {
        PacketOutcome::NoReply
    }
}

/// The state of a running responder: its name and the address it answers with.
pub struct MdnsService {
    pub hostname_local: String,
    pub ip: u32,
}

impl MdnsService {
    /// A responder for `hostname` at `ip` (an IPv4 address as its big-endian
    /// number); it answers for `<hostname>.local`.
    pub fn new(hostname: &str, ip: u32) -> (s: Self)
        ensures
            s.hostname_local@ == hostname@ + ".local"@,
            s.ip == ip,
    {
        let mut hostname_local = hostname.to_owned();
        hostname_local.append(".local");
        MdnsService { hostname_local, ip }
    }

    /// The unsolicited announcement of the own A record (id 0).
    pub fn announcement(&self) -> (res: Option<Vec<u8>>)
        ensures
            res is Some,
            res->0@ == a_record_reply(0, self.hostname_local@, RECORD_TTL, self.ip),
    {
        build_a_record_reply(0, self.hostname_local.as_str(), RECORD_TTL, self.ip)
    }

    /// The station got an address: a new one replaces the old and is
    /// announced at once; the same one changes nothing.
    pub fn on_ip_update(&mut self, new_ip: u32) -> (res: Option<Vec<u8>>)
        ensures
            final(self).hostname_local == old(self).hostname_local,
            final(self).ip == new_ip,
            new_ip == old(self).ip ==> res is None,
            new_ip != old(self).ip ==> res is Some && res->0@ == a_record_reply(
                0,
                old(self).hostname_local@,
                RECORD_TTL,
                new_ip,
            ),
    {
        if new_ip != self.ip {
            self.ip = new_ip;
            self.announcement()
        } else {
            None
        }
    }

    /// What to do with a received packet.
    pub fn on_packet(&self, packet: &[u8]) -> (out: PacketOutcome)
        ensures
            match parsed_dns_packet(packet@) {
                None => out is NoReply,
                Some(q) => match query_outcome_spec(q, self.hostname_local@, self.ip) {
                    None => out is NoQuestions,
                    Some(Some(b)) => out matches PacketOutcome::Reply(r) && r@ == b,
                    Some(None) => out is NoReply,
                },
            },
    {
        match parse_dns_packet(packet) {
            Some(q) => query_outcome(&q, self.hostname_local.as_str(), self.ip),
            None => PacketOutcome::NoReply,
        }
    }
}

/// The periodic announcement is due once more than 300 s have passed since the last.
pub fn announce_due(elapsed_nanos: u128) -> (b: bool)
    ensures
        b == (elapsed_nanos > ANNOUNCE_INTERVAL_NANOS),
{
    elapsed_nanos > ANNOUNCE_INTERVAL_NANOS
}

/// Two chars that are equal or differ only in ASCII case.
pub open spec fn same_up_to_ascii_case(a: char, b: char) -> bool {
    ||| a == b
    ||| ('A' <= a && a <= 'Z' && b as u32 == a as u32 + 32)
    ||| ('A' <= b && b <= 'Z' && a as u32 == b as u32 + 32)
}

/// Two names of equal length whose chars agree up to ASCII case.
pub open spec fn names_agree_up_to_ascii_case(n: Seq<char>, h: Seq<char>) -> bool {
    n.len() == h.len() && forall|i: int| 0 <= i < n.len() ==> same_up_to_ascii_case(#[trigger] n[i], h[i])
}

/// The name match of a question ignores ASCII case on both sides: it is
/// symmetric in the queried and the own name, and any question that names the
/// own name up to ASCII case, with type A (1) or ANY (255), matches.
pub proof fn law_name_match_ignores_ascii_case(n: Seq<char>, h: Seq<char>, t: u16)
    ensures
        question_matches((n, t), h) == question_matches((h, t), n),
        names_agree_up_to_ascii_case(n, h) && (t == 1 || t == 255) ==> question_matches((n, t), h),
        !(t == 1 || t == 255) ==> !question_matches((n, t), h),
        n.len() != h.len() ==> !question_matches((n, t), h),
{
    if names_agree_up_to_ascii_case(n, h) {
        assert forall|i: int| 0 <= i < n.len() implies text::ascii_lower(#[trigger] n[i]) == text::ascii_lower(h[i]) by {
            assert(same_up_to_ascii_case(n[i], h[i]));
        }
    }
    if text::eq_ignore_ascii_case(n, h) {
        assert forall|i: int| 0 <= i < h.len() implies text::ascii_lower(#[trigger] h[i]) == text::ascii_lower(n[i]) by {
            assert(text::ascii_lower(n[i]) == text::ascii_lower(h[i]));
        }
    }
    if text::eq_ignore_ascii_case(h, n) {
        assert forall|i: int| 0 <= i < n.len() implies text::ascii_lower(#[trigger] n[i]) == text::ascii_lower(h[i]) by {
            assert(text::ascii_lower(h[i]) == text::ascii_lower(n[i]));
        }
    }
}

/// A query is answered when any of its questions, at whatever position, asks
/// for the own name (up to ASCII case) with type A or ANY; the other
/// questions do not matter.
pub proof fn law_any_question_position_answers(qs: Seq<(Seq<char>, u16)>, h: Seq<char>, i: int)
    requires
        0 <= i < qs.len(),
        names_agree_up_to_ascii_case(qs[i].0, h),
        qs[i].1 == 1 || qs[i].1 == 255,
    ensures
        any_question_matches(qs, h),
{
    law_name_match_ignores_ascii_case(qs[i].0, h, qs[i].1);
    assert(question_matches(qs[i], h));
}

} // verus!
