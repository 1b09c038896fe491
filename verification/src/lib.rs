//! Verified core of the Sparko ESP32 platform: the decisions, encodings and
//! parsers of the firmware, kept apart from the radio, flash and socket I/O.
use vstd::prelude::*;

pub mod analog_clock_feature;
pub mod captive_dns;
pub mod commands;
pub mod config_store;
pub mod core_feature;
pub mod display;
pub mod dyndns2;
pub mod esp_http_server;
pub mod feature;
pub mod form;
pub mod http;
pub mod led;
pub mod mdns;
pub mod sparko_esp32_std;
pub mod text;
pub mod wifi;

verus! {

/// `anyhow::Error`, the error type of the platform's feature interface.
#[verifier::external_type_specification]
#[verifier::external_body]
pub struct ExAnyhowError(anyhow::Error);

/// Marker for the configuration types of features.
pub trait FeatureConfig {}

} // verus!
