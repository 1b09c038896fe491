//! The captive-portal DNS server answers every query with the address of the
//! access point itself.
use vstd::prelude::*;

verus! {

/// Length of a DNS header in bytes; the server needs at least that much.
pub const DNS_HEADER_LEN: usize = 12;

/// The answer record appended to every query: a compressed pointer to the
/// question name, type A, class IN, a TTL of 60 seconds and the 4 address bytes.
pub open spec fn answer_record(addr: Seq<u8>) -> Seq<u8> {
    seq![0xc0u8, 0x0cu8, 0x00u8, 0x01u8, 0x00u8, 0x01u8, 0x00u8, 0x00u8, 0x00u8, 0x3cu8, 0x00u8, 0x04u8]
        + addr
}

/// The reply to `query`: the query with the QR bit (in byte 2) and the RA bit
/// (in byte 3) set, the answer count (bytes 6 and 7) set to one, followed by
/// one answer that points at `addr`.
pub open spec fn dns_response(query: Seq<u8>, addr: Seq<u8>) -> Seq<u8> {
    query.update(2, query[2] | 0x80u8).update(3, query[3] | 0x80u8).update(6, 0u8).update(
        7,
        1u8,
    ) + answer_record(addr)
}

/// Builds the answer of the captive DNS server to a query.
/// The query must hold at least the first 8 bytes of a DNS header.
pub fn build_dns_response(query: &[u8], server_addr: &[u8; 4]) -> (resp: Vec<u8>)
    requires
        query@.len() >= 8,
    ensures
        resp@ == dns_response(query@, server_addr@),
{
    let mut resp: Vec<u8> = Vec::new();
    let mut i: usize = 0;
    while i < query.len()
        invariant
            i <= query@.len(),
            resp@ == query@.subrange(0, i as int),
        decreases query@.len() - i,
    {
        resp.push(query[i]);
        i = i + 1;
    }
    let b2 = resp[2] | 0x80;
    resp.set(2, b2);
    let b3 = resp[3] | 0x80;
    resp.set(3, b3);
    resp.set(6, 0x00);
    resp.set(7, 0x01);
    let tail: [u8; 12] = [0xc0, 0x0c, 0x00, 0x01, 0x00, 0x01, 0x00, 0x00, 0x00, 0x3c, 0x00, 0x04];
    let ghost prefix = resp@;
    let mut j: usize = 0;
    while j < 12
        invariant
            j <= 12,
            resp@ == prefix + tail@.subrange(0, j as int),
        decreases 12 - j,
    {
        resp.push(tail[j]);
        j = j + 1;
    }
    let mut k: usize = 0;
    while k < 4
        invariant
            k <= 4,
            resp@ == prefix + tail@ + server_addr@.subrange(0, k as int),
        decreases 4 - k,
    {
        resp.push(server_addr[k]);
        k = k + 1;
    }
    assert(tail@ =~= seq![0xc0u8, 0x0cu8, 0x00u8, 0x01u8, 0x00u8, 0x01u8, 0x00u8, 0x00u8, 0x00u8, 0x3cu8, 0x00u8, 0x04u8]);
    assert(server_addr@.subrange(0, 4) =~= server_addr@);
    assert(resp@ =~= dns_response(query@, server_addr@));
    resp
}

/// The answer to a query keeps its id and question, is marked as a reply with
/// one answer, and ends with the server address; it is 16 bytes longer.
pub proof fn law_dns_response_answers_with_server(query: Seq<u8>, addr: Seq<u8>)
    requires
        query.len() >= 8,
        addr.len() == 4,
    ensures
        ({
            let r = dns_response(query, addr);
            &&& r.len() == query.len() + 16
            &&& r.subrange(0, 2) == query.subrange(0, 2)
            &&& r[2] & 0x80 == 0x80
            &&& r[6] == 0 && r[7] == 1
            &&& r.subrange(8, query.len() as int) == query.subrange(8, query.len() as int)
            &&& r.subrange(r.len() - 4, r.len() as int) == addr
        }),
{
    let r = dns_response(query, addr);
    let b = query[2];
    assert((b | 0x80u8) & 0x80u8 == 0x80u8) by (bit_vector);
    assert(r.subrange(0, 2) =~= query.subrange(0, 2));
    assert(r.subrange(8, query.len() as int) =~= query.subrange(8, query.len() as int));
    assert(r.subrange(r.len() - 4, r.len() as int) =~= addr);
}

} // verus!
