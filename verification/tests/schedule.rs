use bully_chaos::schedule::{halve, ChaosSchedule, WaitTime};
use bully_chaos::settings::event_settings::EventSettings;

fn settings() -> EventSettings {
    EventSettings { meta_no_chaos_roo: 3, meta_extra_chaos_roo: 5 }
}

#[test]
fn new_schedule_starts_at_zero() {
    let s = ChaosSchedule::new();
    assert_eq!(s.event_counter, 0);
    assert_eq!(s.more_chaos_since, None);
}

#[test]
fn voting_pauses_every_so_many_events() {
    let mut s = ChaosSchedule::new();
    let mut paused = vec![];
    for _ in 0..10 {
        paused.push(s.voting_paused(&settings()));
        s.finish_round();
    }
    assert_eq!(paused, vec![false, false, false, true, false, false, true, false, false, true]);
}

#[test]
fn voting_not_paused_before_first_event_even_with_zero_rate() {
    let s = ChaosSchedule::new();
    let zero = EventSettings { meta_no_chaos_roo: 0, meta_extra_chaos_roo: 0 };
    assert!(!s.voting_paused(&zero));
}

#[test]
fn full_voting_time_without_more_chaos() {
    let mut s = ChaosSchedule::new();
    let plan = s.open_voting(&settings(), 45, 1000);
    assert!(!plan.more_chaos_enabled);
    assert!(!plan.more_chaos_disabled);
    assert_eq!(plan.wait, WaitTime { secs: 45, nanos: 0 });
    assert_eq!(s.more_chaos_since, None);
}

#[test]
fn more_chaos_halves_voting_for_a_minute() {
    let mut s = ChaosSchedule { event_counter: 5, more_chaos_since: None };
    let plan = s.open_voting(&settings(), 45, 10_000);
    assert!(plan.more_chaos_enabled);
    assert!(!plan.more_chaos_disabled);
    assert_eq!(plan.wait, WaitTime { secs: 22, nanos: 500_000_000 });
    assert_eq!(s.more_chaos_since, Some(10_000));

    s.finish_round();
    let plan = s.open_voting(&settings(), 45, 69_999);
    assert!(!plan.more_chaos_enabled);
    assert!(!plan.more_chaos_disabled);
    assert_eq!(plan.wait, WaitTime { secs: 22, nanos: 500_000_000 });
    assert_eq!(s.more_chaos_since, Some(10_000));

    s.finish_round();
    let plan = s.open_voting(&settings(), 45, 70_000);
    assert!(plan.more_chaos_disabled);
    assert_eq!(plan.wait, WaitTime { secs: 22, nanos: 500_000_000 });
    assert_eq!(s.more_chaos_since, None);

    s.finish_round();
    let plan = s.open_voting(&settings(), 45, 80_000);
    assert!(!plan.more_chaos_disabled);
    assert_eq!(plan.wait, WaitTime { secs: 45, nanos: 0 });
}

#[test]
fn more_chaos_restarts_on_its_round() {
    let mut s = ChaosSchedule { event_counter: 10, more_chaos_since: Some(0) };
    let plan = s.open_voting(&settings(), 30, 100_000);
    assert!(plan.more_chaos_enabled);
    assert!(!plan.more_chaos_disabled);
    assert_eq!(s.more_chaos_since, Some(100_000));
    assert_eq!(plan.wait, WaitTime { secs: 15, nanos: 0 });
}

#[test]
fn clock_going_back_counts_as_no_time() {
    let mut s = ChaosSchedule { event_counter: 1, more_chaos_since: Some(50_000) };
    let plan = s.open_voting(&settings(), 10, 10);
    assert!(!plan.more_chaos_disabled);
    assert_eq!(s.more_chaos_since, Some(50_000));
}

#[test]
fn finish_round_counts_events() {
    let mut s = ChaosSchedule::new();
    s.finish_round();
    s.finish_round();
    assert_eq!(s.event_counter, 2);
}

#[test]
fn halve_is_exact() {
    assert_eq!(halve(45), WaitTime { secs: 22, nanos: 500_000_000 });
    assert_eq!(halve(44), WaitTime { secs: 22, nanos: 0 });
    assert_eq!(halve(1), WaitTime { secs: 0, nanos: 500_000_000 });
    assert_eq!(halve(0), WaitTime { secs: 0, nanos: 0 });
    let d = std::time::Duration::from_secs(45) / 2;
    let h = halve(45);
    assert_eq!(d, std::time::Duration::new(h.secs, h.nanos));
}
