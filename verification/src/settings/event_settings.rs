//! How often the meta events come round.

use vstd::prelude::*;

verus! {

/// The rates of the meta events, counted in chaos events.
#[derive(Clone, Copy, PartialEq, Eq, Structural, Debug)]
pub struct EventSettings {
    /// Voting pauses for a minute after every this many events.
    pub meta_no_chaos_roo: u32,
    /// The voting time halves for a minute after every this many events.
    pub meta_extra_chaos_roo: u32,
}

impl EventSettings {
    /// The settings written out when none exist yet.
    pub fn default_settings() -> (settings: EventSettings)
        ensures
            settings.meta_no_chaos_roo == 30,
            settings.meta_extra_chaos_roo == 50,
    {
        EventSettings { meta_no_chaos_roo: 30, meta_extra_chaos_roo: 50 }
    }
}

} // verus!
