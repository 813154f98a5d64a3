//! Presentation preferences of a monitor.

use vstd::prelude::*;

verus! {

/// How a monitor presents its readings, and how often its host means to ask.
#[derive(Clone, Copy, Debug, PartialEq, Eq, Structural)]
pub struct Config {
    /// Suggested time between two samples, in milliseconds. The monitor
    /// stores it for the host and never acts on it.
    pub update_interval: u64,
    /// Whether each reading is introduced by a symbol rather than a text label.
    pub use_icons: bool,
}

impl Config {
    /// The preferences made of the two given values. Every interval is accepted.
    pub fn new(update_interval: u64, use_icons: bool) -> (config: Config)
        ensures
            config.update_interval == update_interval,
            config.use_icons == use_icons,
    {
        Config { update_interval, use_icons }
    }
}

impl Default for Config {
    /// Two seconds between samples, text labels.
    fn default() -> (config: Config)
        ensures
            config.update_interval == 2000,
            config.use_icons == false,
    {
        Config { update_interval: 2000, use_icons: false }
    }
}

} // verus!
