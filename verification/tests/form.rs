use sparko_esp_std::form::{form_get, parse_form};

fn entries(body: &str) -> Vec<(String, String)> {
    parse_form(body.as_bytes())
        .iter()
        .map(|(k, v)| (k.clone(), v.clone()))
        .collect()
}

#[test]
fn form_last_value_wins_first_position_kept() {
    assert_eq!(
        entries("a=1&b=2&a=3"),
        vec![("a".to_string(), "3".to_string()), ("b".to_string(), "2".to_string())]
    );
}

#[test]
fn form_decodes_plus_and_percent() {
    let m = parse_form(b"ssid=My+Net&wifi_password=p%40ss%26word");
    assert_eq!(form_get(&m, "ssid").map(|s| s.as_str()), Some("My Net"));
    assert_eq!(form_get(&m, "wifi_password").map(|s| s.as_str()), Some("p@ss&word"));
    assert_eq!(form_get(&m, "missing"), None);
}

#[test]
fn form_empty_body() {
    let m = parse_form(b"");
    assert!(m.is_empty());
    assert_eq!(form_get(&m, "a"), None);
}

#[test]
fn form_field_without_value() {
    assert_eq!(
        entries("flag&x="),
        vec![("flag".to_string(), String::new()), ("x".to_string(), String::new())]
    );
}
