//! The web pages the device serves itself: the answers to the captive-portal
//! probes of phones and laptops, the home page and the shared style sheet.
use vstd::prelude::*;
use vstd::string::*;

verus! {

/// The page the captive portal sends clients to.
pub const CONFIG_PATH: &'static str = "/config";

/// The body of the Android probe answer when the device is online.
pub const GENERATE_204_ONLINE: &'static str = "<HTML><BODY>Success</BODY></HTML>";

/// The body of a probe answer when the device is not configured.
pub const NOT_CONFIGURED_HTML: &'static str = "<HTML><BODY>Not configured</BODY></HTML>";

/// The body of the Apple probe answer when the device is online.
pub const HOTSPOT_DETECT_ONLINE: &'static str = "<!DOCTYPE HTML PUBLIC \"-//W3C//DTD HTML 3.2//EN\">\n<HTML>\n<HEAD>\n\t<TITLE>Success</TITLE>\n</HEAD>\n<BODY>\n\tSuccess\n</BODY>\n</HTML>";

/// The body of the Windows probe answer when the device is online.
pub const CONNECT_TEST_ONLINE: &'static str = "Microsoft Connect Test";

/// The body of the Windows probe answer when the device is not configured.
pub const CONNECT_TEST_OFFLINE: &'static str = "Not configured";

/// The style sheet shared by all pages.
pub const MAIN_CSS: &'static str = "\nbody { font-family: system-ui, -apple-system, BlinkMacSystemFont, sans-serif; margin: 0; padding: 0; background: #f7f7f7; }\n.page { max-width: 480px; margin: 0 auto; padding: 18px; }\nh1 { font-size: 1.5rem; margin-bottom: 1rem; }\nlabel { display: block; margin: 12px 0 6px; font-weight: 600; }\ninput, select { width: 100%; padding: 10px 10px; border: 1px solid #ccc; border-radius: 8px; box-sizing: border-box; }\nbutton { margin-top: 18px; width: 100%; padding: 12px; font-size: 1rem; border-radius: 10px; border: none; background: #007aff; color: #fff; }\nbutton:active { background: #005bb5; }\n                        ";

/// The home page up to the current time.
pub const HOME_PAGE_HEAD: &'static str = "\n                    <!DOCTYPE html>\n                    <html lang=\"en\">\n                    <head>\n                        <meta charset=\"utf-8\" />\n                        <meta name=\"viewport\" content=\"width=device-width, initial-scale=1\" />\n                        <title>ESP32 Home</title>\n                        <link rel=\"stylesheet\" href=\"/main.css\">\n                    </head>\n                    <body>\n                        <div class=\"page\">\n                            <h1>ESP32 Home</h1>\n                            <p>Welcome to the ESP32 home page!</p>\n                            <p>Current time: ";

/// The home page after the current time.
pub const HOME_PAGE_TAIL: &'static str = "</p>\n                        </div>\n                    </body>\n                    </html>\n                    ";

/// The answer to a request: status code, reason phrase, headers and body.
#[derive(Debug)]
pub struct HttpReply {
    pub status: u16,
    pub message: Option<&'static str>,
    pub headers: Vec<(&'static str, &'static str)>,
    pub body: String,
}

/// A reply as data.
pub struct HttpReplyView {
    pub status: u16,
    pub message: Option<Seq<char>>,
    pub headers: Seq<(Seq<char>, Seq<char>)>,
    pub body: Seq<char>,
}

impl HttpReply {
    pub open spec fn view(&self) -> HttpReplyView {
        HttpReplyView {
            status: self.status,
            message: match self.message {
                Some(m) => Some(m@),
                None => None,
            },
            headers: self.headers@.map_values(|h: (&'static str, &'static str)| (h.0@, h.1@)),
            body: self.body@,
        }
    }
}

/// `200 OK` with no headers: what `into_ok_response` sends.
pub open spec fn ok_reply(body: Seq<char>) -> HttpReplyView {
    HttpReplyView { status: 200, message: Some("OK"@), headers: Seq::empty(), body }
}

/// `302` with no reason phrase that sends the client to the configuration page.
pub open spec fn to_config_reply(body: Seq<char>) -> HttpReplyView {
    HttpReplyView { status: 302, message: None, headers: seq![("Location"@, CONFIG_PATH@)], body }
}

fn ok(body: &str) -> (r: HttpReply)
    ensures
        r.view() == ok_reply(body@),
{
    let r = HttpReply { status: 200, message: Some("OK"), headers: Vec::new(), body: body.to_owned() };
    assert(r.view().headers =~= Seq::<(Seq<char>, Seq<char>)>::empty());
    r
}

fn to_config(body: &str) -> (r: HttpReply)
    ensures
        r.view() == to_config_reply(body@),
{
    let mut headers: Vec<(&'static str, &'static str)> = Vec::new();
    headers.push(("Location", CONFIG_PATH));
    let r = HttpReply { status: 302, message: None, headers, body: body.to_owned() };
    assert(r.view().headers =~= seq![("Location"@, CONFIG_PATH@)]);
    r
}

/// The device is online when it is not in access-point (setup) mode.
pub fn is_online(ap_mode: bool) -> (b: bool)
    ensures
        b == !ap_mode,
{
    !ap_mode
}

/// The connectivity probes that phones and laptops send to detect a
/// captive portal.
#[derive(Clone, Copy, PartialEq, Eq, Structural, Debug)]
pub enum CaptiveProbe {
    /// Android: `/generate_204`.
    Generate204,
    /// Apple: `/hotspot-detect.html`.
    HotspotDetect,
    /// Windows: `/connecttest.txt`.
    ConnectTest,
}

pub open spec fn probe_path_spec(p: CaptiveProbe) -> Seq<char> {
    match p {
        CaptiveProbe::Generate204 => "/generate_204"@,
        CaptiveProbe::HotspotDetect => "/hotspot-detect.html"@,
        CaptiveProbe::ConnectTest => "/connecttest.txt"@,
    }
}

/// The path each probe requests.
pub fn probe_path(p: CaptiveProbe) -> (path: &'static str)
    ensures
        path@ == probe_path_spec(p),
{
    match p {
        CaptiveProbe::Generate204 => "/generate_204",
        CaptiveProbe::HotspotDetect => "/hotspot-detect.html",
        CaptiveProbe::ConnectTest => "/connecttest.txt",
    }
}

/// The answer to a probe: when online, `200 OK` with the body the probing
/// system expects; otherwise a redirect to the configuration page.
pub open spec fn captive_probe_reply_spec(p: CaptiveProbe, online: bool) -> HttpReplyView {
    match p {
        CaptiveProbe::Generate204 => if online {
            ok_reply(GENERATE_204_ONLINE@)
        } else {
            to_config_reply(NOT_CONFIGURED_HTML@)
        },
        CaptiveProbe::HotspotDetect => if online {
            ok_reply(HOTSPOT_DETECT_ONLINE@)
        } else {
            to_config_reply(NOT_CONFIGURED_HTML@)
        },
        CaptiveProbe::ConnectTest => if online {
            ok_reply(CONNECT_TEST_ONLINE@)
        } else {
            to_config_reply(CONNECT_TEST_OFFLINE@)
        },
    }
}

/// The answer to a captive-portal probe.
pub fn captive_probe_reply(p: CaptiveProbe, online: bool) -> (r: HttpReply)
    ensures
        r.view() == captive_probe_reply_spec(p, online),
{
    match p {
        CaptiveProbe::Generate204 => if online {
            ok(GENERATE_204_ONLINE)
        } else {
            to_config(NOT_CONFIGURED_HTML)
        },
        CaptiveProbe::HotspotDetect => if online {
            ok(HOTSPOT_DETECT_ONLINE)
        } else {
            to_config(NOT_CONFIGURED_HTML)
        },
        CaptiveProbe::ConnectTest => if online {
            ok(CONNECT_TEST_ONLINE)
        } else {
            to_config(CONNECT_TEST_OFFLINE)
        },
    }
}

/// The home page: in setup mode a `302 Found` to the configuration page with
/// no body; otherwise `200 OK` with the page that shows `now`.
pub open spec fn home_reply_spec(ap_mode: bool, now: Seq<char>) -> HttpReplyView {
    if ap_mode {
        HttpReplyView {
            status: 302,
            message: Some("Found"@),
            headers: seq![("Location"@, CONFIG_PATH@)],
            body: Seq::empty(),
        }
    } else {
        ok_reply(HOME_PAGE_HEAD@ + now + HOME_PAGE_TAIL@)
    }
}

/// The answer to a request for `/`, given the current local time as text.
pub fn home_reply(ap_mode: bool, now: &str) -> (r: HttpReply)
    ensures
        r.view() == home_reply_spec(ap_mode, now@),
{
    if ap_mode {
        let mut headers: Vec<(&'static str, &'static str)> = Vec::new();
        headers.push(("Location", CONFIG_PATH));
        let r = HttpReply { status: 302, message: Some("Found"), headers, body: String::new() };
        assert(r.view().headers =~= seq![("Location"@, CONFIG_PATH@)]);
        r
    } else {
        let mut body = HOME_PAGE_HEAD.to_owned();
        body.append(now);
        body.append(HOME_PAGE_TAIL);
        let r = HttpReply { status: 200, message: Some("OK"), headers: Vec::new(), body };
        assert(r.view().headers =~= Seq::<(Seq<char>, Seq<char>)>::empty());
        r
    }
}

/// The answer to a request for `/main.css`: `200 OK`, typed as CSS.
pub open spec fn main_css_reply_spec() -> HttpReplyView {
    HttpReplyView {
        status: 200,
        message: Some("OK"@),
        headers: seq![("Content-Type"@, "text/css"@)],
        body: MAIN_CSS@,
    }
}

/// The answer to a request for `/main.css`.
pub fn main_css_reply() -> (r: HttpReply)
    ensures
        r.view() == main_css_reply_spec(),
{
    let mut headers: Vec<(&'static str, &'static str)> = Vec::new();
    headers.push(("Content-Type", "text/css"));
    let r = HttpReply { status: 200, message: Some("OK"), headers, body: MAIN_CSS.to_owned() };
    assert(r.view().headers =~= seq![("Content-Type"@, "text/css"@)]);
    r
}

/// Until the device is configured, every connectivity probe and the home page
/// send the client to the configuration page; once it is, every probe gets
/// the `200 OK` answer its system expects.
pub proof fn law_portal_redirects_until_configured(p: CaptiveProbe, now: Seq<char>)
    ensures
        captive_probe_reply_spec(p, false).status == 302,
        captive_probe_reply_spec(p, false).headers == seq![("Location"@, CONFIG_PATH@)],
        home_reply_spec(true, now).status == 302,
        home_reply_spec(true, now).headers == seq![("Location"@, CONFIG_PATH@)],
        captive_probe_reply_spec(p, true).status == 200,
        captive_probe_reply_spec(p, true).headers.len() == 0,
{
}

} // verus!
