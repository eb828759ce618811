use bully_chaos::game::events::ChaosEvents;
use bully_chaos::messages::{
    chosen_event_message, connected_message, decimal_string, option_announcement, random_event_message,
};
use bully_chaos::settings::event_settings::EventSettings;
use bully_chaos::settings::twitch_settings::TwitchSettings;

#[test]
fn decimal_notation() {
    assert_eq!(decimal_string(0), "0");
    assert_eq!(decimal_string(7), "7");
    assert_eq!(decimal_string(10), "10");
    assert_eq!(decimal_string(1234567890), "1234567890");
    assert_eq!(decimal_string(usize::MAX), usize::MAX.to_string());
}

#[test]
fn option_lines_count_from_one() {
    assert_eq!(option_announcement(0, ChaosEvents::Heal), "1. Heal");
    assert_eq!(option_announcement(3, ChaosEvents::RandomEvent), "4. Random event");
}

#[test]
fn chosen_event_lines() {
    assert_eq!(chosen_event_message(ChaosEvents::Freeze, Some(3)), "Chosen event: Freeze (10 seconds) (3 votes)");
    assert_eq!(chosen_event_message(ChaosEvents::Heal, None), "Chosen event: Heal");
    assert_eq!(random_event_message(ChaosEvents::SkyTp), "Random event: Sky TP (Suicide)");
}

#[test]
fn connected_line() {
    assert_eq!(
        connected_message(31, "0.1.0"),
        "[Bully Chaos Mod] Successfully connected. Enabled events: 31, version: 0.1.0"
    );
}

#[test]
fn default_event_settings() {
    let s = EventSettings::default_settings();
    assert_eq!(s.meta_no_chaos_roo, 30);
    assert_eq!(s.meta_extra_chaos_roo, 50);
}

#[test]
fn default_twitch_settings() {
    let s = TwitchSettings::default_settings();
    assert_eq!(s.voting_time, 45);
    assert_eq!(s.username, "USERNAME OF THE ACCOUNT MUST MATCH THE USERNAME ATTACHED TO THE OAUTH TOKEN");
    assert_eq!(s.oauth_token, "OAUTH TOKEN, GENERATE: https://twitchtokengenerator.com/");
    assert!(!s.has_valid_token_length());
}

#[test]
fn token_length_is_thirty_bytes() {
    let mut s = TwitchSettings::default_settings();
    s.oauth_token = "abcdefghijklmnopqrstuvwxyz0123".to_string();
    assert!(s.has_valid_token_length());
    s.oauth_token = "abcdefghijklmnopqrstuvwxyz012".to_string();
    assert!(!s.has_valid_token_length());
    s.oauth_token = "ééééééééééééééé".to_string();
    assert!(s.has_valid_token_length());
}
