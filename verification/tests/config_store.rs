use sparko_esp_std::config_store::{
    check_feature_name, decode_bool, load_time_zone_name, needs_save, encode_bool, load_cron, load_value, read_problem,
    removal_problem, stored_form, string_read_buffer_len, ConfigStoreError, NvsRead, NvsWrite,
    ProblemUpdate, TypedValue,
};

fn raised(u: &ProblemUpdate) -> Option<&str> {
    match u {
        ProblemUpdate::Raise(m) => Some(m.as_str()),
        ProblemUpdate::Clear => None,
    }
}

#[test]
fn reserved_names_refused_for_external_features() {
    for name in ["core", "feature", "wifi", "phy", "bt_config", "nvs.net80211"] {
        match check_feature_name(name, false) {
            Err(ConfigStoreError::ReservedName(n)) => assert_eq!(n, name),
            other => panic!("{} gave {:?}", name, other),
        }
        assert!(check_feature_name(name, true).is_ok());
    }
}

#[test]
fn ordinary_names_accepted() {
    assert!(check_feature_name("AnalogClock", false).is_ok());
    assert!(check_feature_name("DynDNS2", false).is_ok());
    assert!(check_feature_name("Core", false).is_ok());
}

#[test]
fn read_problems() {
    assert_eq!(
        raised(&read_problem("ssid", &NvsRead::Missing, true)),
        Some("Required value ssid is missing")
    );
    assert_eq!(raised(&read_problem("ssid", &NvsRead::Missing, false)), None);
    assert_eq!(raised(&read_problem("ssid", &NvsRead::Found, true)), None);
    assert_eq!(
        raised(&read_problem("ssid", &NvsRead::Failed("ESP_ERR_NVS_INVALID_LENGTH".to_string()), false)),
        Some("NVS error reading ssid: ESP_ERR_NVS_INVALID_LENGTH")
    );
}

#[test]
fn cron_valid_pattern_kept() {
    let (p, u) = load_cron("schedule", "0 * * * * *");
    assert_eq!(p.as_deref(), Some("0 * * * * *"));
    assert_eq!(raised(&u), None);
}

#[test]
fn cron_pattern_kept_as_croner_normalises_it() {
    let (p, u) = load_cron("schedule", " 0 0 12 * * mon ");
    assert_eq!(p.as_deref(), Some("0 0 12 * * 1"));
    assert_eq!(raised(&u), None);
    let (p, _) = load_cron("schedule", "@hourly");
    assert_eq!(p.as_deref(), Some("0 * * * *"));
}

#[test]
fn cron_empty_pattern_dropped() {
    let (p, u) = load_cron("schedule", "");
    assert_eq!(p, None);
    assert_eq!(
        raised(&u),
        Some("NVS error reading schedule: CronPattern cannot be an empty string.")
    );
}

#[test]
fn cron_invalid_pattern_dropped() {
    let (p, u) = load_cron("schedule", "not a cron");
    assert_eq!(p, None);
    assert!(raised(&u).unwrap().starts_with("NVS error reading schedule: "));
    assert!(raised(&u).unwrap().len() > "NVS error reading schedule: ".len());
}

#[test]
fn bool_encoding() {
    assert_eq!(encode_bool(true), 1);
    assert_eq!(encode_bool(false), 0);
    assert!(decode_bool(Some(1)));
    assert!(decode_bool(Some(7)));
    assert!(!decode_bool(Some(0)));
    assert!(!decode_bool(None));
    assert!(decode_bool(Some(encode_bool(true))));
    assert!(!decode_bool(Some(encode_bool(false))));
}

#[test]
fn string_buffer_has_room_for_nul() {
    assert_eq!(string_read_buffer_len(32), 33);
    assert_eq!(string_read_buffer_len(0), 1);
}

#[test]
fn stored_forms() {
    assert!(matches!(
        stored_form("a", &TypedValue::String(32, Some("x".to_string()))),
        Ok(NvsWrite::Str(s)) if s == "x"
    ));
    assert!(matches!(stored_form("a", &TypedValue::Int32(Some(-5))), Ok(NvsWrite::I32(-5))));
    assert!(matches!(stored_form("a", &TypedValue::Int64(Some(1 << 40))), Ok(NvsWrite::I64(v)) if v == 1 << 40));
    assert!(matches!(stored_form("a", &TypedValue::Bool(true)), Ok(NvsWrite::U8(1))));
    assert!(matches!(stored_form("a", &TypedValue::Bool(false)), Ok(NvsWrite::U8(0))));
    assert!(matches!(
        stored_form("a", &TypedValue::TimeZone("Europe/London".to_string())),
        Ok(NvsWrite::Str(s)) if s == "Europe/London"
    ));
    assert!(matches!(
        stored_form("a", &TypedValue::Cron(Some("* * * * * *".to_string()))),
        Ok(NvsWrite::Str(s)) if s == "* * * * * *"
    ));
}

#[test]
fn absent_values_cannot_be_saved() {
    for v in [
        TypedValue::String(8, None),
        TypedValue::Int32(None),
        TypedValue::Int64(None),
        TypedValue::Cron(None),
    ] {
        match stored_form("upd_int", &v) {
            Err(ConfigStoreError::InvalidValue(n)) => assert_eq!(n, "upd_int"),
            other => panic!("{:?}", other),
        }
    }
}

#[test]
fn load_string_found() {
    let (v, p) = load_value(
        "ssid",
        &TypedValue::String(32, None),
        true,
        Ok(Some(NvsWrite::Str("home".to_string()))),
    );
    assert!(matches!(v, TypedValue::String(32, Some(s)) if s == "home"));
    assert_eq!(p.len(), 1);
    assert_eq!(raised(&p[0]), None);
}

#[test]
fn load_required_missing() {
    let (v, p) = load_value("ssid", &TypedValue::String(32, Some("old".to_string())), true, Ok(None));
    assert!(matches!(v, TypedValue::String(32, None)));
    assert_eq!(p.len(), 1);
    assert_eq!(raised(&p[0]), Some("Required value ssid is missing"));
}

#[test]
fn load_datum_of_other_kind_counts_as_missing() {
    let (v, p) = load_value("n", &TypedValue::Int32(Some(3)), true, Ok(Some(NvsWrite::I64(3))));
    assert!(matches!(v, TypedValue::Int32(None)));
    assert_eq!(raised(&p[0]), Some("Required value n is missing"));
}

#[test]
fn load_read_failure() {
    let (v, p) = load_value("flag", &TypedValue::Bool(true), false, Err("ESP_FAIL".to_string()));
    assert!(matches!(v, TypedValue::Bool(false)));
    assert_eq!(p.len(), 1);
    assert_eq!(raised(&p[0]), Some("NVS error reading flag: ESP_FAIL"));
}

#[test]
fn load_bool_nonzero_is_true() {
    let (v, _) = load_value("flag", &TypedValue::Bool(false), false, Ok(Some(NvsWrite::U8(9))));
    assert!(matches!(v, TypedValue::Bool(true)));
}

#[test]
fn load_cron_pattern_adds_second_update() {
    let (v, p) = load_value(
        "schedule",
        &TypedValue::Cron(None),
        true,
        Ok(Some(NvsWrite::Str("0 0 * * * *".to_string()))),
    );
    assert!(matches!(v, TypedValue::Cron(Some(s)) if s == "0 0 * * * *"));
    assert_eq!(p.len(), 2);
    assert_eq!(raised(&p[0]), None);
    assert_eq!(raised(&p[1]), None);

    let (v, p) = load_value("schedule", &TypedValue::Cron(None), true, Ok(Some(NvsWrite::Str(String::new()))));
    assert!(matches!(v, TypedValue::Cron(None)));
    assert_eq!(p.len(), 2);
    assert_eq!(raised(&p[0]), None);
    assert_eq!(
        raised(&p[1]),
        Some("NVS error reading schedule: CronPattern cannot be an empty string.")
    );
}

#[test]
fn saved_value_loads_back() {
    let values = [
        TypedValue::String(16, Some("abc".to_string())),
        TypedValue::Int32(Some(i32::MIN)),
        TypedValue::Int64(Some(i64::MAX)),
        TypedValue::Bool(true),
        TypedValue::Bool(false),
        TypedValue::Cron(Some("*/5 * * * * *".to_string())),
    ];
    for v in values.iter() {
        let w = stored_form("k", v).unwrap();
        let (loaded, problems) = load_value("k", v, true, Ok(Some(w)));
        assert_eq!(format!("{:?}", loaded), format!("{:?}", v));
        assert!(problems.iter().all(|u| raised(u).is_none()));
    }
}

#[test]
fn removal_problems() {
    assert_eq!(removal_problem("ssid", true).as_deref(), Some("Required value ssid removed"));
    assert_eq!(removal_problem("ssid", false), None);
}

#[test]
fn save_only_when_absent_or_changed() {
    let s = |v: Option<&str>| TypedValue::String(32, v.map(|x| x.to_string()));
    assert!(needs_save(&s(None), &s(Some("a"))));
    assert!(needs_save(&s(None), &s(None)));
    assert!(!needs_save(&s(Some("a")), &s(Some("a"))));
    assert!(needs_save(&s(Some("a")), &s(Some("b"))));
    assert!(!needs_save(&TypedValue::Int32(Some(4)), &TypedValue::Int32(Some(4))));
    assert!(needs_save(&TypedValue::Int32(Some(4)), &TypedValue::Int32(Some(5))));
    assert!(!needs_save(&TypedValue::Bool(false), &TypedValue::Bool(false)));
    assert!(needs_save(&TypedValue::Bool(false), &TypedValue::Bool(true)));
    assert!(!needs_save(
        &TypedValue::TimeZone("UTC".to_string()),
        &TypedValue::TimeZone("UTC".to_string())
    ));
    assert!(needs_save(&TypedValue::Cron(None), &TypedValue::Cron(None)));
    assert!(needs_save(&TypedValue::Int32(Some(1)), &TypedValue::Int64(Some(1))));
}

#[test]
fn time_zone_names_load() {
    let (z, u) = load_time_zone_name("time_zone", true, Ok(Some(NvsWrite::Str("Europe/Berlin".to_string()))));
    assert_eq!(z.as_deref(), Some("Europe/Berlin"));
    assert_eq!(raised(&u), None);
    let (z, u) = load_time_zone_name("time_zone", true, Ok(None));
    assert_eq!(z, None);
    assert_eq!(raised(&u), Some("Required value time_zone is missing"));
    let (z, u) = load_time_zone_name("time_zone", false, Ok(Some(NvsWrite::U8(1))));
    assert_eq!(z, None);
    assert_eq!(raised(&u), None);
    let (z, u) = load_time_zone_name("time_zone", false, Err("ESP_FAIL".to_string()));
    assert_eq!(z, None);
    assert_eq!(raised(&u), Some("NVS error reading time_zone: ESP_FAIL"));
}

#[test]
fn saved_time_zone_loads_back() {
    let w = stored_form("time_zone", &TypedValue::TimeZone("America/New_York".to_string())).unwrap();
    let (z, _) = load_time_zone_name("time_zone", true, Ok(Some(w)));
    assert_eq!(z.as_deref(), Some("America/New_York"));
}

#[test]
fn refused_name_error_is_reserved_name() {
    assert!(matches!(check_feature_name("wifi", false), Err(ConfigStoreError::ReservedName(n)) if n == "wifi"));
}
