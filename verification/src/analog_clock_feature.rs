//! The analog clock feature: it redraws a clock face on the display every second.
use vstd::prelude::*;

use crate::feature::{ConfigSpecEntry, FeatureDescriptor};

verus! {

/// The name under which the feature registers.
pub const FEATURE_NAME: &'static str = "AnalogClock";

/// The schedule of the redraw task: every second.
pub const CLOCK_SCHEDULE: &'static str = "* * * * * *";

/// The name the redraw task is scheduled under.
pub const CLOCK_TASK_NAME: &'static str = "Analog Clock";

/// The analog clock feature.
pub struct AnalogClock {}

impl AnalogClock {
    /// The feature; making it cannot fail.
    pub fn new() -> (r: anyhow::Result<Self>)
        ensures
            r is Ok,
    {
        Ok(Self {})
    }

    /// The descriptor the feature registers with: no configuration.
    pub fn init(&self) -> (d: FeatureDescriptor)
        ensures
            d.name@ == FEATURE_NAME@,
            d.entries().len() == 0,
    {
        let config: Vec<ConfigSpecEntry> = Vec::new();
        FeatureDescriptor { name: FEATURE_NAME.to_owned(), config }
    }
}

} // verus!
