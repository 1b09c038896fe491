//! How the platform starts: in station mode when the core configuration is
//! valid and the connection succeeds, otherwise as a setup access point.
use vstd::prelude::*;

use crate::led::Status;

verus! {

/// The brightness of the RGB status LED (of 255).
pub const RGB_LED_BRIGHTNESS: u8 = 32;

/// Seconds between two log lines of the access-point loop.
pub const AP_LOOP_SECS: u64 = 10;

/// The UDP port of the captive DNS server.
pub const CAPTIVE_DNS_PORT: u16 = 53;

/// How the platform runs.
#[derive(Clone, Copy, PartialEq, Eq, Structural, Debug)]
pub enum StartMode {
    /// Join the configured network and run the features.
    Client,
    /// Offer the setup access point with its captive portal.
    AccessPoint,
}

/// The first mode, and the status the LED shows before it: a valid core
/// configuration is tried as a client; otherwise the setup status is shown
/// and the access point started.
pub fn initial_mode(core_config_valid: bool) -> (r: (StartMode, Option<Status>))
    ensures
        core_config_valid ==> r == (StartMode::Client, None::<Status>),
        !core_config_valid ==> r == (StartMode::AccessPoint, Some(Status::Setup)),
{
    if core_config_valid {
        (StartMode::Client, None)
    } else {
        (StartMode::AccessPoint, Some(Status::Setup))
    }
}

/// What follows the client start: nothing more when it succeeded; else the
/// error status and the access point.
pub fn after_client_start(ok: bool) -> (r: Option<(StartMode, Status)>)
    ensures
        ok ==> r is None,
        !ok ==> r == Some((StartMode::AccessPoint, Status::Error)),
{
    if ok {
        None
    } else {
        Some((StartMode::AccessPoint, Status::Error))
    }
}

/// A feature is started only when it is enabled.
pub fn should_start_feature(enabled: bool) -> (b: bool)
    ensures
        b == enabled,
{
    enabled
}

} // verus!
