//! The meta events between rounds: the vote pauses after every so many
//! events, and after every so many others the voting time halves for a
//! minute ("more chaos").

use crate::settings::event_settings::EventSettings;
use vstd::prelude::*;

verus! {

/// How long "more chaos" lasts, in milliseconds.
pub const MORE_CHAOS_MS: u64 = 60000;

/// How long voting pauses, in seconds.
pub const PAUSE_SECS: u64 = 60;

/// Whether the round after `counter` events is due for a meta event that
/// comes every `every` events: never before the first event.
pub open spec fn is_meta_round(counter: u32, every: u32) -> bool {
    counter > 0 && counter % every == 0
}

/// Milliseconds from `start` to `now`; none when `now` lies before `start`.
pub open spec fn elapsed_ms(start: u64, now: u64) -> u64 {
    if now >= start {
        (now - start) as u64
    } else {
        0
    }
}

/// A time span as whole seconds and the nanoseconds past them.
#[derive(Clone, Copy, PartialEq, Eq, Structural, Debug)]
pub struct WaitTime {
    pub secs: u64,
    pub nanos: u32,
}

/// What to do when a vote opens.
#[derive(Clone, Copy, PartialEq, Eq, Structural, Debug)]
pub struct VotingPlan {
    /// "More chaos" starts with this vote (to be announced).
    pub more_chaos_enabled: bool,
    /// "More chaos" ended with this vote (to be announced).
    pub more_chaos_disabled: bool,
    /// How long the vote stays open.
    pub wait: WaitTime,
}

/// The state that the meta events keep from round to round.
#[derive(Clone, Copy, PartialEq, Eq, Structural, Debug)]
pub struct ChaosSchedule {
    /// The number of events applied so far.
    pub event_counter: u32,
    /// When "more chaos" started, in milliseconds on the caller's clock, while
    /// it lasts.
    pub more_chaos_since: Option<u64>,
}

impl ChaosSchedule {
    /// The schedule before the first round.
    pub fn new() -> (schedule: ChaosSchedule)
        ensures
            schedule.event_counter == 0,
            schedule.more_chaos_since is None,
    {
        ChaosSchedule { event_counter: 0, more_chaos_since: None }
    }

    /// Whether the vote pauses for a minute before this round. The rate must
    /// not be zero once an event has been applied.
    pub fn voting_paused(&self, settings: &EventSettings) -> (paused: bool)
        requires
            self.event_counter == 0 || settings.meta_no_chaos_roo != 0,
        ensures
            paused == is_meta_round(self.event_counter, settings.meta_no_chaos_roo),
            paused == (self.event_counter > 0 && self.event_counter % settings.meta_no_chaos_roo
                == 0),
    {
        self.event_counter > 0 && self.event_counter % settings.meta_no_chaos_roo == 0
    }

    /// Opens the round's vote at `now_ms`: starts "more chaos" when the round
    /// is due for it, ends it once it has lasted a minute, and gives the
    /// voting time, `voting_secs` seconds or half of it while "more chaos"
    /// lasts (the round that ends it still has the half). The rate must not
    /// be zero once an event has been applied.
    pub fn open_voting(&mut self, settings: &EventSettings, voting_secs: u64, now_ms: u64) -> (plan:
        VotingPlan)
        requires
            old(self).event_counter == 0 || settings.meta_extra_chaos_roo != 0,
        ensures
            final(self).event_counter == old(self).event_counter,
            plan.more_chaos_enabled == is_meta_round(
                old(self).event_counter,
                settings.meta_extra_chaos_roo,
            ),
            ({
                let since = if plan.more_chaos_enabled {
                    Some(now_ms)
                } else {
                    old(self).more_chaos_since
                };
                match since {
                    None => {
                        &&& final(self).more_chaos_since is None
                        &&& !plan.more_chaos_disabled
                        &&& plan.wait == WaitTime { secs: voting_secs, nanos: 0 }
                    },
                    Some(start) => {
                        &&& plan.more_chaos_disabled == (elapsed_ms(start, now_ms) >= MORE_CHAOS_MS)
                        &&& final(self).more_chaos_since == if plan.more_chaos_disabled {
                            None
                        } else {
                            Some(start)
                        }
                        &&& plan.wait == half_of(voting_secs)
                    },
                }
            }),
            plan.more_chaos_enabled == (old(self).event_counter > 0 && old(self).event_counter
                % settings.meta_extra_chaos_roo == 0),
            plan.more_chaos_enabled ==> final(self).more_chaos_since == Some(now_ms)
                && !plan.more_chaos_disabled,
            !plan.more_chaos_enabled && old(self).more_chaos_since is None ==> final(self).more_chaos_since is None && !plan.more_chaos_disabled && plan.wait.secs == voting_secs
                && plan.wait.nanos == 0,
            old(self).more_chaos_since is Some && !plan.more_chaos_enabled && now_ms >= old(self).more_chaos_since->0 + MORE_CHAOS_MS ==> plan.more_chaos_disabled
                && final(self).more_chaos_since is None,
            old(self).more_chaos_since is Some && !plan.more_chaos_enabled && now_ms < old(self).more_chaos_since->0 + MORE_CHAOS_MS ==> !plan.more_chaos_disabled
                && final(self).more_chaos_since == old(self).more_chaos_since,
            plan.more_chaos_enabled || old(self).more_chaos_since is Some ==> plan.wait.secs
                * 2_000_000_000 + plan.wait.nanos * 2 == voting_secs * 1_000_000_000
                && plan.wait.nanos < 1_000_000_000,
    {
        let enabled = self.event_counter > 0 && self.event_counter % settings.meta_extra_chaos_roo
            == 0;
        if enabled {
            self.more_chaos_since = Some(now_ms);
        }
        match self.more_chaos_since {
            None => VotingPlan {
                more_chaos_enabled: enabled,
                more_chaos_disabled: false,
                wait: WaitTime { secs: voting_secs, nanos: 0 },
            },
            Some(start) => {
                let elapsed = if now_ms >= start {
                    now_ms - start
                } else {
                    0
                };
                let disabled = elapsed >= MORE_CHAOS_MS;
                if disabled {
                    self.more_chaos_since = None;
                }
                VotingPlan {
                    more_chaos_enabled: enabled,
                    more_chaos_disabled: disabled,
                    wait: halve(voting_secs),
                }
            },
        }
    }

    /// Counts the event that the round applied. The counter must not be at
    /// its maximum.
    pub fn finish_round(&mut self)
        requires
            old(self).event_counter < u32::MAX,
        ensures
            final(self).event_counter == old(self).event_counter + 1,
            final(self).more_chaos_since == old(self).more_chaos_since,
    {
        self.event_counter = self.event_counter + 1;
    }
}

/// Half of `secs` seconds, exactly.
pub open spec fn half_of(secs: u64) -> WaitTime {
    WaitTime { secs: secs / 2, nanos: if secs % 2 == 1 { 500_000_000u32 } else { 0u32 } }
}

/// Half of `secs` seconds, exactly.
pub fn halve(secs: u64) -> (half: WaitTime)
    ensures
        half == half_of(secs),
        half.secs * 2_000_000_000 + half.nanos * 2 == secs * 1_000_000_000,
{
    WaitTime { secs: secs / 2, nanos: if secs % 2 == 1 { 500_000_000 } else { 0 } }
}

/// The time between two readings of the clock is their true difference,
/// and none when the clock went back.
pub proof fn lemma_elapsed_is_difference(start: u64, now: u64)
    ensures
        now >= start ==> elapsed_ms(start, now) == now - start,
        now < start ==> elapsed_ms(start, now) == 0,
        elapsed_ms(start, now) >= MORE_CHAOS_MS <==> now >= start + MORE_CHAOS_MS,
{
}

/// Half a voting time is exactly half of it: twice the half gives the whole.
pub proof fn lemma_half_is_exact(secs: u64)
    ensures
        half_of(secs).secs * 2_000_000_000 + half_of(secs).nanos * 2 == secs * 1_000_000_000,
        half_of(secs).nanos < 1_000_000_000,
{
}

} // verus!
