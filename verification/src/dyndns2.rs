//! The DynDNS2 feature: it asks a web service for the public address of the
//! network and, when that address differs from what the host name resolves
//! to, calls the update URL of the DynDNS2 service.
use vstd::prelude::*;
use vstd::string::*;

use crate::feature::{ConfigSpecEntry, FeatureDescriptor, ValueKind};
use crate::text;

verus! {

pub const USER_NAME: &'static str = "user_name";
pub const PASSWORD: &'static str = "password";
pub const HOSTNAME: &'static str = "hostname";
pub const BASE_SERVICE_URL: &'static str = "base_url";
pub const GET_IP_URL: &'static str = "get_ip_url";
pub const GET_REQUIRES_STRIP: &'static str = "get_req_strip";
pub const UPDATE_URL: &'static str = "update_url";
pub const UPDATE_REQUIRES_ADDRESS: &'static str = "upd_req_addr";
pub const UPDATE_INTERVAL: &'static str = "upd_int";
pub const SCHEDULE: &'static str = "schedule";

/// The name under which the feature registers.
pub const FEATURE_NAME: &'static str = "DynDNS2";

/// The configuration the feature declares, in order.
pub open spec fn dyndns2_config() -> Seq<(Seq<char>, ValueKind, bool)> {
    seq![
        (USER_NAME@, ValueKind::String(32), true),
        (PASSWORD@, ValueKind::String(32), true),
        (HOSTNAME@, ValueKind::String(64), true),
        (GET_IP_URL@, ValueKind::String(64), true),
        (UPDATE_URL@, ValueKind::String(64), true),
        (UPDATE_REQUIRES_ADDRESS@, ValueKind::Bool, false),
        (SCHEDULE@, ValueKind::Cron, true),
    ]
}

/// The DynDNS2 feature.
pub struct DynDns2 {}

impl DynDns2 {
    /// The feature; making it cannot fail.
    pub fn new() -> (r: anyhow::Result<Self>)
        ensures
            r is Ok,
    {
        Ok(Self {})
    }

    /// The descriptor the feature registers with.
    pub fn init(&self) -> (d: FeatureDescriptor)
        ensures
            d.name@ == FEATURE_NAME@,
            d.entries() == dyndns2_config(),
    {
        let mut config: Vec<ConfigSpecEntry> = Vec::new();
        config.push(ConfigSpecEntry::new(USER_NAME, ValueKind::String(32), true));
        config.push(ConfigSpecEntry::new(PASSWORD, ValueKind::String(32), true));
        config.push(ConfigSpecEntry::new(HOSTNAME, ValueKind::String(64), true));
        config.push(ConfigSpecEntry::new(GET_IP_URL, ValueKind::String(64), true));
        config.push(ConfigSpecEntry::new(UPDATE_URL, ValueKind::String(64), true));
        config.push(ConfigSpecEntry::new(UPDATE_REQUIRES_ADDRESS, ValueKind::Bool, false));
        config.push(ConfigSpecEntry::new(SCHEDULE, ValueKind::Cron, true));
        let d = FeatureDescriptor { name: FEATURE_NAME.to_owned(), config };
        assert(d.entries() =~= dyndns2_config());
        d
    }
}

} // verus!

verus! {

/// An IP address as the lookup service reports it: an IPv4 address as its
/// 32-bit big-endian number, an IPv6 address as its 128-bit number.
#[derive(Clone, Copy, PartialEq, Eq, Structural, Debug)]
pub enum IpAddress {
    V4(u32),
    V6(u128),
}

/// The text that stands in for a response body that is not valid UTF-8.
pub const INVALID_UTF8: &'static str = "invalid utf8";

pub open spec fn body_open_tag() -> Seq<char> {
    seq!['<', 'b', 'o', 'd', 'y', '>']
}

pub open spec fn body_close_tag() -> Seq<char> {
    seq!['<', '/', 'b', 'o', 'd', 'y', '>']
}

/// The response body as text: its UTF-8 decoding, or `INVALID_UTF8`.
pub open spec fn decoded_body(body: Seq<u8>) -> Seq<char> {
    if vstd::utf8::valid_utf8(body) {
        vstd::utf8::decode_utf8(body)
    } else {
        INVALID_UTF8@
    }
}

/// Where the payload of an HTML page starts: just after the first `<body>`,
/// or at the start when there is none.
pub open spec fn body_start(html: Seq<char>) -> int {
    match text::find(html, body_open_tag()) {
        Some(i) => i + 6,
        None => 0,
    }
}

/// Where the payload ends: at the first `</body>` after its start, or at the end.
pub open spec fn body_end(html: Seq<char>) -> int {
    let start = body_start(html);
    match text::find(html.subrange(start, html.len() as int), body_close_tag()) {
        Some(j) => start + j,
        None => html.len() as int,
    }
}

/// The payload of an HTML page (the whole text when it has no body tags).
pub open spec fn body_payload(html: Seq<char>) -> Seq<char> {
    html.subrange(body_start(html), body_end(html))
}

/// What follows the last space of `raw` (all of `raw` when it has none).
pub open spec fn after_last_space(raw: Seq<char>) -> Seq<char> {
    match text::rfind(raw, ' ') {
        Some(k) => raw.subrange(k + 1, raw.len() as int),
        None => raw,
    }
}

/// The address text in a response of the public-address lookup service: the
/// trimmed body, its HTML payload, and of that what follows the last space.
pub open spec fn public_ip_text(body: Seq<u8>) -> Seq<char> {
    after_last_space(body_payload(text::trim(decoded_body(body))))
}

proof fn lemma_body_bounds(html: Seq<char>)
    ensures
        0 <= body_start(html) <= body_end(html) <= html.len(),
{
    text::lemma_find_from_bounds(html, body_open_tag(), 0);
    let start = body_start(html);
    text::lemma_find_from_bounds(html.subrange(start, html.len() as int), body_close_tag(), 0);
}

/// Extracts the address text from the bytes that the lookup service sent.
pub fn public_ip_address_text(body: &[u8]) -> (res: &str)
    ensures
        res@ == public_ip_text(body@),
{
    let decoded: &str = match text::str_from_utf8(body) {
        Some(s) => s,
        None => INVALID_UTF8,
    };
    let html = text::trim_str(decoded);
    let n = html.unicode_len();
    proof {
        lemma_body_bounds(html@);
    }
    let open_tag: [char; 6] = ['<', 'b', 'o', 'd', 'y', '>'];
    assert(open_tag@ =~= body_open_tag());
    let start: usize = match text::find_chars(html, &open_tag) {
        Some(i) => i + 6,
        None => 0,
    };
    let rest = html.substring_char(start, n);
    let close_tag: [char; 7] = ['<', '/', 'b', 'o', 'd', 'y', '>'];
    assert(close_tag@ =~= body_close_tag());
    let end: usize = match text::find_chars(rest, &close_tag) {
        Some(j) => start + j,
        None => n,
    };
    let raw = html.substring_char(start, end);
    let m = raw.unicode_len();
    match text::rfind_char(raw, ' ') {
        Some(k) => {
            proof {
                text::lemma_rfind_bounds(raw@, ' ', m as int);
            }
            raw.substring_char(k + 1, m)
        },
        None => raw,
    }
}

/// The request that tells the DynDNS2 service the address of `host_name`.
pub open spec fn update_request_url(
    update_url: Seq<char>,
    user_name: Seq<char>,
    password: Seq<char>,
    host_name: Seq<char>,
) -> Seq<char> {
    update_url + "?username="@ + user_name + "&password="@ + password + "&hostname="@ + host_name
}

/// What one run of the resolver asks of its caller.
#[derive(Debug)]
pub enum ResolveAction {
    /// Send a GET request to this URL and ignore the reply body.
    UpdateDns(String),
    /// The public address still equals the resolved one: nothing to do.
    Unchanged,
    /// The public address could not be found: nothing to do.
    LookupFailed,
}

/// The periodic task of the feature: it holds the settings and the address
/// that the host name resolved to when the task was created.
pub struct ResolveTask {
    pub host_name: String,
    pub user_name: String,
    pub password: String,
    pub get_ip_url: String,
    pub update_url: String,
    pub addr: IpAddress,
    pub cnt: u32,
}

impl ResolveTask {
    /// A task whose host name currently resolves to `current_dns`.
    pub fn new(
        host_name: String,
        user_name: String,
        password: String,
        get_ip_url: String,
        update_url: String,
        current_dns: IpAddress,
    ) -> (t: Self)
        ensures
            t.host_name == host_name,
            t.user_name == user_name,
            t.password == password,
            t.get_ip_url == get_ip_url,
            t.update_url == update_url,
            t.addr == current_dns,
            t.cnt == 0,
    {
        ResolveTask { host_name, user_name, password, get_ip_url, update_url, addr: current_dns, cnt: 0 }
    }

    /// The name the task is scheduled under.
    pub fn name(&self) -> (n: &'static str)
        ensures
            n@ == "DynDns2 Resolver"@,
    {
        "DynDns2 Resolver"
    }

    /// One run of the task, given the outcome of the public-address lookup.
    /// A found address counts the run; one that differs from the resolved
    /// address asks for the update request. The resolved address itself is
    /// kept, so every later run with the new address asks again.
    pub fn execute(&mut self, public_ip: Option<IpAddress>) -> (act: ResolveAction)
        requires
            public_ip is Some ==> old(self).cnt < u32::MAX,
        ensures
            final(self).host_name == old(self).host_name,
            final(self).user_name == old(self).user_name,
            final(self).password == old(self).password,
            final(self).get_ip_url == old(self).get_ip_url,
            final(self).update_url == old(self).update_url,
            final(self).addr == old(self).addr,
            match public_ip {
                None => final(self).cnt == old(self).cnt && act is LookupFailed,
                Some(ip) => {
                    &&& final(self).cnt == old(self).cnt + 1
                    &&& ip == old(self).addr ==> act is Unchanged
                    &&& ip != old(self).addr ==> (act matches ResolveAction::UpdateDns(url) && url@
                        == update_request_url(
                        old(self).update_url@,
                        old(self).user_name@,
                        old(self).password@,
                        old(self).host_name@,
                    ))
                },
            },
    {
        match public_ip {
            None => ResolveAction::LookupFailed,
            Some(ip) => {
                self.cnt = self.cnt + 1;
                if ip != self.addr {
                    let mut url = self.update_url.clone();
                    url.append("?username=");
                    url.append(self.user_name.as_str());
                    url.append("&password=");
                    url.append(self.password.as_str());
                    url.append("&hostname=");
                    url.append(self.host_name.as_str());
                    ResolveAction::UpdateDns(url)
                } else {
                    ResolveAction::Unchanged
                }
            },
        }
    }
}

} // verus!

verus! {

/// Every configuration name of the feature fits in an NVS key.
pub proof fn law_dyndns2_names_fit_nvs()
    ensures
        crate::feature::names_fit_nvs(dyndns2_config()),
{
    reveal_strlit("user_name");
    reveal_strlit("password");
    reveal_strlit("hostname");
    reveal_strlit("get_ip_url");
    reveal_strlit("update_url");
    reveal_strlit("upd_req_addr");
    reveal_strlit("schedule");
}

/// The address text never holds a space.
pub proof fn law_address_text_has_no_space(body: Seq<u8>)
    ensures
        !public_ip_text(body).contains(' '),
{
    let raw = body_payload(text::trim(decoded_body(body)));
    lemma_after_last_space(raw);
}

proof fn lemma_rfind_none(s: Seq<char>, c: char, j: int)
    requires
        0 <= j <= s.len(),
        text::rfind_before(s, c, j) is None,
    ensures
        forall|t: int| 0 <= t < j ==> s[t] != c,
    decreases j,
{
    if j > 0 && s[j - 1] != c {
        lemma_rfind_none(s, c, j - 1);
    }
}

proof fn lemma_rfind_last(s: Seq<char>, c: char, j: int)
    requires
        0 <= j <= s.len(),
        text::rfind_before(s, c, j) is Some,
    ensures
        forall|t: int| text::rfind_before(s, c, j)->0 < t < j ==> s[t] != c,
    decreases j,
{
    if j > 0 && s[j - 1] != c {
        lemma_rfind_last(s, c, j - 1);
    }
}

proof fn lemma_after_last_space(raw: Seq<char>)
    ensures
        !after_last_space(raw).contains(' '),
{
    let n = raw.len() as int;
    match text::rfind(raw, ' ') {
        Some(k) => {
            text::lemma_rfind_bounds(raw, ' ', n);
            lemma_rfind_last(raw, ' ', n);
            let r = raw.subrange(k + 1, n);
            assert forall|t: int| 0 <= t < r.len() implies r[t] != ' ' by {
                assert(r[t] == raw[k + 1 + t]);
            }
        },
        None => {
            lemma_rfind_none(raw, ' ', n);
        },
    }
}

/// The update request is the update URL followed by the query that names the
/// user, the password and the host, in that order.
pub proof fn law_update_request_shape(update_url: Seq<char>, user_name: Seq<char>, password: Seq<char>, host_name: Seq<char>)
    ensures
        ({
            let u = update_request_url(update_url, user_name, password, host_name);
            &&& u.subrange(0, update_url.len() as int) == update_url
            &&& u.subrange(u.len() - host_name.len(), u.len() as int) == host_name
        }),
{
    let u = update_request_url(update_url, user_name, password, host_name);
    assert(u.subrange(0, update_url.len() as int) =~= update_url);
    assert(u.subrange(u.len() - host_name.len(), u.len() as int) =~= host_name);
}

proof fn lemma_find_after_prefix(pre: Seq<char>, pat: Seq<char>, rest: Seq<char>, i: int)
    requires
        pat.len() > 0,
        pat[0] == '<',
        !pre.contains('<'),
        0 <= i <= pre.len(),
    ensures
        text::find_from(pre + pat + rest, pat, i) == Some(pre.len() as int),
    decreases pre.len() - i,
{
    let s = pre + pat + rest;
    if i == pre.len() {
        assert(s.subrange(i, i + pat.len()) =~= pat);
    } else {
        assert(s[i] == pre[i]);
        if s[i] == '<' {
            assert(pre.contains('<'));
        }
        assert(s.subrange(i, i + pat.len())[0] == s[i]);
        lemma_find_after_prefix(pre, pat, rest, i + 1);
    }
}

proof fn lemma_rfind_absent(s: Seq<char>, c: char, j: int)
    requires
        !s.contains(c),
        0 <= j <= s.len(),
    ensures
        text::rfind_before(s, c, j) is None,
    decreases j,
{
    if j > 0 {
        if s[j - 1] == c {
            assert(s.contains(c));
        }
        lemma_rfind_absent(s, c, j - 1);
    }
}

/// When the (trimmed) reply is a page whose first `<body>` tag is followed by
/// an address and the closing `</body>`, the address text is exactly what
/// stands between the two tags: neither tag is part of it.
pub proof fn law_address_between_body_tags(body: Seq<u8>, pre: Seq<char>, x: Seq<char>, post: Seq<char>)
    requires
        vstd::utf8::valid_utf8(body),
        text::trim(vstd::utf8::decode_utf8(body)) == pre + body_open_tag() + x + body_close_tag() + post,
        !pre.contains('<'),
        !x.contains('<'),
        !x.contains(' '),
    ensures
        public_ip_text(body) == x,
{
    let html = text::trim(decoded_body(body));
    let open = body_open_tag();
    let close = body_close_tag();
    lemma_find_after_prefix(pre, open, x + close + post, 0);
    assert(pre + open + (x + close + post) =~= html);
    let start: int = pre.len() as int + 6;
    assert(body_start(html) == start);
    let rest = html.subrange(start, html.len() as int);
    assert(rest =~= x + close + post);
    lemma_find_after_prefix(x, close, post, 0);
    assert(body_end(html) == start + x.len());
    assert(body_payload(html) =~= x);
    lemma_rfind_absent(x, ' ', x.len() as int);
}

} // verus!
