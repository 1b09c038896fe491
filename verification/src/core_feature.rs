//! The core feature: the Wi-Fi credentials, the mDNS host name and the time
//! zone, and the minutely housekeeping task.
use vstd::prelude::*;

use crate::config_store::TypedValue;
use crate::feature::{ConfigSpecEntry, FeatureDescriptor, ValueKind};

verus! {

pub const CORE_FEATURE_NAME: &'static str = "core";
pub const SSID: &'static str = "ssid";
pub const WIFI_PASSWORD: &'static str = "wifi_password";
pub const MDNS_HOSTNAME: &'static str = "mdns_hostname";
pub const TIMEZONE: &'static str = "time_zone";

/// The longest SSID, in bytes.
pub const SSID_LEN: usize = 32;
/// The longest Wi-Fi password, in bytes.
pub const PASSWORD_LEN: usize = 64;
/// The longest mDNS host name, in bytes.
pub const HOSTNAME_LEN: usize = 32;

/// The schedule of the housekeeping task: at second 0 of every minute.
pub const CORE_TASK_SCHEDULE: &'static str = "0 * * * * *";

/// The name the housekeeping task is scheduled under.
pub const CORE_TASK_NAME: &'static str = "Core";

/// The configuration the core feature declares, in order; all of it required.
pub open spec fn core_config() -> Seq<(Seq<char>, ValueKind, bool)> {
    seq![
        (SSID@, ValueKind::String(SSID_LEN), true),
        (WIFI_PASSWORD@, ValueKind::String(PASSWORD_LEN), true),
        (MDNS_HOSTNAME@, ValueKind::String(HOSTNAME_LEN), true),
        (TIMEZONE@, ValueKind::TimeZone, true),
    ]
}

/// The descriptor the core feature registers with.
pub fn init_descriptor() -> (d: FeatureDescriptor)
    ensures
        d.name@ == CORE_FEATURE_NAME@,
        d.entries() == core_config(),
{
    let mut config: Vec<ConfigSpecEntry> = Vec::new();
    config.push(ConfigSpecEntry::new(SSID, ValueKind::String(SSID_LEN), true));
    config.push(ConfigSpecEntry::new(WIFI_PASSWORD, ValueKind::String(PASSWORD_LEN), true));
    config.push(ConfigSpecEntry::new(MDNS_HOSTNAME, ValueKind::String(HOSTNAME_LEN), true));
    config.push(ConfigSpecEntry::new(TIMEZONE, ValueKind::TimeZone, true));
    let d = FeatureDescriptor { name: CORE_FEATURE_NAME.to_owned(), config };
    assert(d.entries() =~= core_config());
    d
}

/// Why the core feature could not start.
#[derive(Clone, Copy, PartialEq, Eq, Structural, Debug)]
pub enum CoreError {
    /// The time zone setting holds a value of another kind.
    TimezoneWrongType,
}

/// The time zone the system is set to: the configured one, UTC (`None`) when
/// none is configured, or an error when the setting holds another kind.
pub fn timezone_setting(value: Option<&TypedValue>) -> (r: Result<Option<&String>, CoreError>)
    ensures
        match value {
            Some(TypedValue::TimeZone(z)) => r == Ok::<Option<&String>, CoreError>(Some(z)),
            Some(_) => r == Err::<Option<&String>, CoreError>(CoreError::TimezoneWrongType),
            None => r == Ok::<Option<&String>, CoreError>(None),
        },
{
    match value {
        Some(TypedValue::TimeZone(z)) => Ok(Some(z)),
        Some(_) => Err(CoreError::TimezoneWrongType),
        None => Ok(None),
    }
}

/// Do the client credentials fit the driver's fixed-size SSID and password
/// fields?
pub fn credentials_fit(ssid: &str, password: &str) -> (b: bool)
    ensures
        b == (ssid.len() <= SSID_LEN && password.len() <= PASSWORD_LEN),
{
    ssid.len() <= SSID_LEN && password.len() <= PASSWORD_LEN
}

} // verus!

verus! {

/// Every configuration name of the core feature fits in an NVS key.
pub proof fn law_core_names_fit_nvs()
    ensures
        crate::feature::names_fit_nvs(core_config()),
{
    reveal_strlit("ssid");
    reveal_strlit("wifi_password");
    reveal_strlit("mdns_hostname");
    reveal_strlit("time_zone");
}

} // verus!
