//! Wi-Fi: the setup access point with its captive-portal DHCP options, and
//! the decisions of the station while it connects to the configured network.
use vstd::prelude::*;

verus! {

/// The SSID of the setup access point.
pub const AP_SSID: &'static str = "ESP32-Setup";

/// The password of the setup access point.
pub const AP_PASSWORD: &'static str = "password";

/// The channel of the setup access point.
pub const AP_CHANNEL: u8 = 1;

/// How many stations may join the setup access point at once.
pub const AP_MAX_CONNECTIONS: u16 = 4;

/// The DHCP option that tells clients the captive-portal URL (RFC 8910).
pub const DHCP_OPTION_CAPTIVE_PORTAL: u8 = 114;

/// How many times the station tries to connect before it gives up.
pub const CONNECT_ATTEMPTS: u32 = 4;

/// Seconds between two connection attempts.
pub const CONNECT_RETRY_DELAY_SECS: u64 = 5;

/// Seconds between two looks for an address.
pub const IP_POLL_DELAY_SECS: u64 = 1;

/// The disconnect reasons of the Wi-Fi driver that end the connection attempt
/// (the values of `wifi_err_reason_t`).
pub const WIFI_REASON_4WAY_HANDSHAKE_TIMEOUT: u32 = 15;
pub const WIFI_REASON_NO_AP_FOUND: u32 = 201;
pub const WIFI_REASON_AUTH_FAIL: u32 = 202;
pub const WIFI_REASON_HANDSHAKE_TIMEOUT: u32 = 204;

/// The ASCII decimal digits of an octet, as `Display` writes it.
pub open spec fn decimal_octet(n: u8) -> Seq<u8> {
    if n < 10 {
        seq![(48 + n) as u8]
    } else if n < 100 {
        seq![(48 + n / 10) as u8, (48 + n % 10) as u8]
    } else {
        seq![(48 + n / 100) as u8, (48 + (n / 10) % 10) as u8, (48 + n % 10) as u8]
    }
}

/// An IPv4 address in dotted decimal, as `Ipv4Addr` displays it.
pub open spec fn dotted_decimal(ip: Seq<u8>) -> Seq<u8> {
    decimal_octet(ip[0]) + seq![46u8] + decimal_octet(ip[1]) + seq![46u8] + decimal_octet(ip[2])
        + seq![46u8] + decimal_octet(ip[3])
}

/// The value of the captive-portal DHCP option: `http://<ip>/` followed by a
/// NUL byte, as the driver reads it.
pub open spec fn captive_portal_url_spec(ip: Seq<u8>) -> Seq<u8> {
    seq![104u8, 116u8, 116u8, 112u8, 58u8, 47u8, 47u8] + dotted_decimal(ip) + seq![47u8, 0u8]
}

fn push_decimal_octet(out: &mut Vec<u8>, n: u8)
    ensures
        final(out)@ == old(out)@ + decimal_octet(n),
{
    if n < 10 {
        out.push(48 + n);
    } else if n < 100 {
        out.push(48 + n / 10);
        out.push(48 + n % 10);
    } else {
        out.push(48 + n / 100);
        out.push(48 + (n / 10) % 10);
        out.push(48 + n % 10);
    }
    assert(final(out)@ =~= old(out)@ + decimal_octet(n));
}

/// The bytes of the captive-portal DHCP option for an access point at `ip`.
pub fn captive_portal_url(ip: [u8; 4]) -> (url: Vec<u8>)
    ensures
        url@ == captive_portal_url_spec(ip@),
{
    let mut url: Vec<u8> = Vec::new();
    url.push(104);
    url.push(116);
    url.push(116);
    url.push(112);
    url.push(58);
    url.push(47);
    url.push(47);
    push_decimal_octet(&mut url, ip[0]);
    url.push(46);
    push_decimal_octet(&mut url, ip[1]);
    url.push(46);
    push_decimal_octet(&mut url, ip[2]);
    url.push(46);
    push_decimal_octet(&mut url, ip[3]);
    url.push(47);
    url.push(0);
    assert(url@ =~= captive_portal_url_spec(ip@));
    url
}

/// The DNS server address as the driver stores it: the octets read as a
/// little-endian number.
pub fn dns_server_word(ip: [u8; 4]) -> (w: u32)
    ensures
        w == ip[0] as int + 256 * ip[1] as int + 65536 * ip[2] as int + 16777216 * ip[3] as int,
{
    ip[0] as u32 + 256 * (ip[1] as u32) + 65536 * (ip[2] as u32) + 16777216 * (ip[3] as u32)
}

/// The failure that a disconnect reason records, if it is one that ends the
/// connection attempt.
pub open spec fn failure_message_spec(reason: u32) -> Option<Seq<char>> {
    if reason == WIFI_REASON_AUTH_FAIL {
        Some("WiFi authentication failed. Please check your password."@)
    } else if reason == WIFI_REASON_4WAY_HANDSHAKE_TIMEOUT {
        Some("WiFi 4-way handshake timeout. Please check your password."@)
    } else if reason == WIFI_REASON_HANDSHAKE_TIMEOUT {
        Some("WiFi handshake timeout. Please check your password"@)
    } else if reason == WIFI_REASON_NO_AP_FOUND {
        Some("WiFi no access point found. Please check your network settings and try again."@)
    } else {
        None
    }
}

/// The failure to record for a disconnect reason of the driver, if the
/// reason ends the connection attempt.
pub fn disconnect_failure_message(reason: u32) -> (m: Option<&'static str>)
    ensures
        match m {
            Some(s) => failure_message_spec(reason) == Some(s@),
            None => failure_message_spec(reason) is None,
        },
{
    if reason == WIFI_REASON_AUTH_FAIL {
        Some("WiFi authentication failed. Please check your password.")
    } else if reason == WIFI_REASON_4WAY_HANDSHAKE_TIMEOUT {
        Some("WiFi 4-way handshake timeout. Please check your password.")
    } else if reason == WIFI_REASON_HANDSHAKE_TIMEOUT {
        Some("WiFi handshake timeout. Please check your password")
    } else if reason == WIFI_REASON_NO_AP_FOUND {
        Some("WiFi no access point found. Please check your network settings and try again.")
    } else {
        None
    }
}

/// The station tries (again) to connect while no failure is recorded and
/// attempts remain.
pub fn keep_connecting(failure_recorded: bool, attempts_left: u32) -> (b: bool)
    ensures
        b == (!failure_recorded && attempts_left > 0),
{
    !failure_recorded && attempts_left > 0
}

/// What follows one connection attempt.
#[derive(Clone, Copy, PartialEq, Eq, Structural, Debug)]
pub enum AttemptOutcome {
    /// Connected: wait for an address.
    Connected,
    /// Failed with attempts left: wait `CONNECT_RETRY_DELAY_SECS` and try again.
    Retry(u32),
    /// Failed and no attempt is left: the start fails with the driver's error.
    GiveUp,
}

/// A success waits for the address; a failure retries while attempts remain.
pub open spec fn after_attempt_spec(attempts_left: u32, ok: bool) -> AttemptOutcome {
    if ok {
        AttemptOutcome::Connected
    } else if attempts_left - 1 == 0 {
        AttemptOutcome::GiveUp
    } else {
        AttemptOutcome::Retry((attempts_left - 1) as u32)
    }
}

/// What follows a connection attempt made with `attempts_left` attempts left.
pub fn after_connect_attempt(attempts_left: u32, ok: bool) -> (o: AttemptOutcome)
    requires
        attempts_left > 0,
    ensures
        o == after_attempt_spec(attempts_left, ok),
{
    if ok {
        AttemptOutcome::Connected
    } else {
        let left = attempts_left - 1;
        if left == 0 {
            AttemptOutcome::GiveUp
        } else {
            AttemptOutcome::Retry(left)
        }
    }
}

/// What one look for an address decides.
#[derive(Debug)]
pub enum IpWait {
    /// A failure was recorded: the start fails with this message.
    Failed(String),
    /// The station has this (non-zero) address.
    Ready(u32),
    /// Look again after `IP_POLL_DELAY_SECS`.
    Wait,
}

/// One look for an address: a recorded failure ends the wait, else a
/// non-zero address does, else the station keeps waiting. `ip` is the
/// address the interface reports, if it could report one.
pub fn ip_wait_step(failure: Option<&str>, ip: Option<u32>) -> (w: IpWait)
    ensures
        failure matches Some(f) ==> (w matches IpWait::Failed(m) && m@ == f@),
        failure is None && (ip matches Some(a) && a != 0) ==> w == IpWait::Ready(ip->0),
        failure is None && !(ip matches Some(a) && a != 0) ==> w is Wait,
{
    match failure {
        Some(f) => IpWait::Failed(f.to_owned()),
        None => match ip {
            Some(a) => if a != 0 {
                IpWait::Ready(a)
            } else {
                IpWait::Wait
            },
            None => IpWait::Wait,
        },
    }
}

} // verus!

verus! {

/// How many failed attempts, one after the other, end the connecting when
/// `left` attempts remain.
pub open spec fn failures_until_give_up(left: u32) -> nat
    decreases left,
{
    if left == 0 {
        0
    } else {
        match after_attempt_spec(left, false) {
            AttemptOutcome::Retry(next) => if next < left {
                1 + failures_until_give_up(next)
            } else {
                0
            },
            _ => 1,
        }
    }
}

/// The station gives up after exactly `left` failed attempts: with the
/// initial count, after four.
pub proof fn law_connect_attempts(left: u32)
    ensures
        failures_until_give_up(left) == left,
        failures_until_give_up(CONNECT_ATTEMPTS) == 4,
    decreases left,
{
    if left > 1 {
        law_connect_attempts((left - 1) as u32);
    }
    assert(failures_until_give_up(1) == 1);
    assert(failures_until_give_up(2) == 2);
    assert(failures_until_give_up(3) == 3);
    assert(failures_until_give_up(4) == 4);
}

/// Only four disconnect reasons end the connection attempt: authentication
/// failure (202), 4-way handshake timeout (15), handshake timeout (204) and
/// no access point found (201). Any other reason records no failure, so the
/// station goes on with its remaining attempts; the three handshake and
/// authentication failures ask to check the password.
pub proof fn law_only_four_reasons_end_the_attempt(reason: u32)
    ensures
        failure_message_spec(reason) is Some <==> (reason == 15 || reason == 201 || reason == 202
            || reason == 204),
        reason == 201 ==> failure_message_spec(reason) == Some(
            "WiFi no access point found. Please check your network settings and try again."@,
        ),
        reason == 202 ==> failure_message_spec(reason) == Some(
            "WiFi authentication failed. Please check your password."@,
        ),
        reason == 15 ==> failure_message_spec(reason) == Some(
            "WiFi 4-way handshake timeout. Please check your password."@,
        ),
        reason == 204 ==> failure_message_spec(reason) == Some(
            "WiFi handshake timeout. Please check your password"@,
        ),
{
}

} // verus!
