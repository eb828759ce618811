pub mod event_settings;
pub mod twitch_settings;
