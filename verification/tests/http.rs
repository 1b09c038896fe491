use sparko_esp_std::esp_http_server::TMethod;
use sparko_esp_std::http::{
    captive_probe_reply, home_reply, is_online, main_css_reply, probe_path, CaptiveProbe,
    CONFIG_PATH, CONNECT_TEST_OFFLINE, CONNECT_TEST_ONLINE, GENERATE_204_ONLINE,
    HOME_PAGE_HEAD, HOME_PAGE_TAIL, HOTSPOT_DETECT_ONLINE, MAIN_CSS, NOT_CONFIGURED_HTML,
};

#[test]
fn online_only_outside_setup_mode() {
    assert!(is_online(false));
    assert!(!is_online(true));
}

#[test]
fn probe_paths() {
    assert_eq!(probe_path(CaptiveProbe::Generate204), "/generate_204");
    assert_eq!(probe_path(CaptiveProbe::HotspotDetect), "/hotspot-detect.html");
    assert_eq!(probe_path(CaptiveProbe::ConnectTest), "/connecttest.txt");
}

#[test]
fn probe_answers_when_online() {
    for (p, body) in [
        (CaptiveProbe::Generate204, GENERATE_204_ONLINE),
        (CaptiveProbe::HotspotDetect, HOTSPOT_DETECT_ONLINE),
        (CaptiveProbe::ConnectTest, CONNECT_TEST_ONLINE),
    ] {
        let r = captive_probe_reply(p, true);
        assert_eq!(r.status, 200);
        assert_eq!(r.message, Some("OK"));
        assert!(r.headers.is_empty());
        assert_eq!(r.body, body);
    }
}

#[test]
fn probe_answers_redirect_when_offline() {
    for (p, body) in [
        (CaptiveProbe::Generate204, NOT_CONFIGURED_HTML),
        (CaptiveProbe::HotspotDetect, NOT_CONFIGURED_HTML),
        (CaptiveProbe::ConnectTest, CONNECT_TEST_OFFLINE),
    ] {
        let r = captive_probe_reply(p, false);
        assert_eq!(r.status, 302);
        assert_eq!(r.message, None);
        assert_eq!(r.headers, vec![("Location", CONFIG_PATH)]);
        assert_eq!(r.body, body);
    }
    assert_eq!(CONFIG_PATH, "/config");
}

#[test]
fn home_page_in_setup_mode_redirects() {
    let r = home_reply(true, "2024-01-01 00:00:00");
    assert_eq!(r.status, 302);
    assert_eq!(r.message, Some("Found"));
    assert_eq!(r.headers, vec![("Location", "/config")]);
    assert!(r.body.is_empty());
}

#[test]
fn home_page_shows_time() {
    let r = home_reply(false, "2024-05-06 07:08:09");
    assert_eq!(r.status, 200);
    assert_eq!(r.message, Some("OK"));
    assert_eq!(r.body, format!("{}2024-05-06 07:08:09{}", HOME_PAGE_HEAD, HOME_PAGE_TAIL));
    assert!(r.body.contains("<p>Current time: 2024-05-06 07:08:09</p>"));
}

#[test]
fn style_sheet() {
    let r = main_css_reply();
    assert_eq!(r.status, 200);
    assert_eq!(r.headers, vec![("Content-Type", "text/css")]);
    assert_eq!(r.body, MAIN_CSS);
}

#[test]
fn methods_are_distinct() {
    assert_ne!(TMethod::Get, TMethod::Post);
    assert_eq!(TMethod::Head, TMethod::Head);
}
