use streamboat_desktop::proto::Command;
use streamboat_desktop::tray::{menu_entries, now_playing_text, tray_event_to_command, TrayEvent};

#[test]
fn play_pause_next_previous_map_to_the_matching_command() {
    assert!(matches!(
        tray_event_to_command(TrayEvent::PlayPause),
        Some(Command::TogglePlayPause)
    ));
    assert!(matches!(tray_event_to_command(TrayEvent::Next), Some(Command::Next)));
    assert!(matches!(
        tray_event_to_command(TrayEvent::Previous),
        Some(Command::Previous)
    ));
}

#[test]
fn window_and_process_lifecycle_events_are_not_commands() {
    assert!(tray_event_to_command(TrayEvent::ShowMain).is_none());
    assert!(tray_event_to_command(TrayEvent::HideMain).is_none());
    assert!(tray_event_to_command(TrayEvent::Quit).is_none());
}

#[test]
fn every_menu_entry_maps_to_something_ui_app_can_act_on() {
    let events: Vec<TrayEvent> = menu_entries().iter().map(|(_, e)| *e).collect();
    let mut unique = events.clone();
    unique.sort_by_key(|e| format!("{e:?}"));
    unique.dedup();
    assert_eq!(events.len(), 6);
    assert_eq!(unique.len(), 6, "the menu must not repeat an event");
}

#[test]
fn now_playing_text_falls_back_to_the_app_name_when_idle() {
    assert_eq!(now_playing_text(None, None), "streamboat");
    assert_eq!(now_playing_text(Some(""), Some("")), "streamboat");
}

#[test]
fn now_playing_text_joins_title_and_artist_when_both_are_known() {
    assert_eq!(
        now_playing_text(Some("A Title"), Some("An Artist")),
        "A Title — An Artist"
    );
}

#[test]
fn now_playing_text_falls_back_to_the_title_alone() {
    assert_eq!(now_playing_text(Some("A Title"), None), "A Title");
    assert_eq!(now_playing_text(Some("A Title"), Some("")), "A Title");
}

#[test]
fn menu_labels_in_order() {
    let labels: Vec<&str> = menu_entries().iter().map(|(l, _)| *l).collect();
    assert_eq!(labels, vec!["Show", "Hide", "Play/Pause", "Next", "Previous", "Quit"]);
}
