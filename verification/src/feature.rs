//! What a feature declares about itself: its name and the configuration
//! values it needs, each with its kind and whether it is required.
use vstd::prelude::*;

verus! {

/// The kind of a configuration value. A `String` value holds at most the
/// given number of bytes; a new `Bool` value is false, a new `TimeZone` is UTC
/// and every other new value is absent.
#[derive(Clone, Copy, PartialEq, Eq, Structural, Debug)]
pub enum ValueKind {
    String(usize),
    Int32,
    Int64,
    Bool,
    TimeZone,
    Cron,
}

/// One configuration value that a feature declares.
#[derive(Debug)]
pub struct ConfigSpecEntry {
    pub name: String,
    pub kind: ValueKind,
    pub required: bool,
}

impl ConfigSpecEntry {
    pub open spec fn view(&self) -> (Seq<char>, ValueKind, bool) {
        (self.name@, self.kind, self.required)
    }

    /// An entry with the given name, kind and requiredness.
    pub fn new(name: &str, kind: ValueKind, required: bool) -> (e: Self)
        ensures
            e.view() == (name@, kind, required),
    {
        ConfigSpecEntry { name: name.to_owned(), kind, required }
    }
}

/// What a feature declares: its name and its configuration values, in order.
#[derive(Debug)]
pub struct FeatureDescriptor {
    pub name: String,
    pub config: Vec<ConfigSpecEntry>,
}

impl FeatureDescriptor {
    pub open spec fn entries(&self) -> Seq<(Seq<char>, ValueKind, bool)> {
        self.config@.map_values(|e: ConfigSpecEntry| e.view())
    }
}

/// Configuration names are stored as NVS keys, which hold at most 15 chars.
pub const MAX_CONFIG_NAME_LEN: usize = 15;

/// Every configuration name of the descriptor fits in an NVS key.
pub open spec fn names_fit_nvs(entries: Seq<(Seq<char>, ValueKind, bool)>) -> bool {
    forall|i: int| 0 <= i < entries.len() ==> (#[trigger] entries[i]).0.len() <= MAX_CONFIG_NAME_LEN
}

} // verus!
