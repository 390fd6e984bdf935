use streamboat_desktop::actions::{
    order_by_keys, run_track_action, shuffled, track_action_outcome, PickerEffect, PickerMessage,
    PickerRequest, PickerState, PlaylistChoice, QueuePosition, ScreenEffect, TrackAction,
    TrackOutcome,
};
use streamboat_desktop::nav::EntityRef;

#[test]
fn shuffled_keeps_every_id_exactly_once() {
    let ids = vec![1, 2, 3, 4, 5];
    let out = shuffled(ids.clone());
    let mut sorted = out.clone();
    sorted.sort_unstable();
    assert_eq!(sorted, ids);
}

#[test]
fn shuffled_keeps_repeated_ids_as_often_as_they_occur() {
    let ids = vec![7, 7, 3, 9, 3, 3];
    let mut out = shuffled(ids.clone());
    out.sort_unstable();
    assert_eq!(out, vec![3, 3, 3, 7, 7, 9]);
    assert!(shuffled(Vec::new()).is_empty());
}

#[test]
fn play_now_replaces_the_queue_with_the_one_track() {
    match track_action_outcome(TrackAction::PlayNow(5), false) {
        TrackOutcome::Effect(ScreenEffect::PlayTracks(ids)) => assert_eq!(ids, vec![5]),
        other => panic!("unexpected {other:?}"),
    }
}

#[test]
fn play_next_and_add_last_enqueue_at_the_right_end() {
    let (toggle, effects) = run_track_action(TrackAction::PlayNext(3), false);
    assert!(toggle.is_none());
    assert!(matches!(effects[..], [ScreenEffect::Enqueue(3, QueuePosition::Next)]));
    let (toggle, effects) = run_track_action(TrackAction::AddLast(4), true);
    assert!(toggle.is_none());
    assert!(matches!(effects[..], [ScreenEffect::Enqueue(4, QueuePosition::Last)]));
}

#[test]
fn toggle_favorite_asks_for_the_flip_with_the_current_state() {
    let (toggle, effects) = run_track_action(TrackAction::ToggleFavorite(8), true);
    assert_eq!(toggle, Some((8, true)));
    assert!(effects.is_empty());
    let (toggle, _) = run_track_action(TrackAction::ToggleFavorite(8), false);
    assert_eq!(toggle, Some((8, false)));
}

#[test]
fn add_to_playlist_opens_the_picker() {
    let (toggle, effects) = run_track_action(TrackAction::AddToPlaylist(2), false);
    assert!(toggle.is_none());
    assert!(matches!(effects[..], [ScreenEffect::OpenAddToPlaylist(2)]));
}

fn choice(uuid: Option<&str>, title: &str) -> PlaylistChoice {
    PlaylistChoice {
        uuid: uuid.map(str::to_string),
        title: title.to_string(),
    }
}

#[test]
fn picker_loads_then_adds_to_the_chosen_playlist() {
    let (mut picker, first) = PickerState::open(42);
    assert!(matches!(first, PickerRequest::LoadPlaylists));
    assert!(picker.loading);
    let (req, eff) = picker.update(PickerMessage::Loaded(Ok(vec![
        choice(Some("p1"), "Road Trip"),
        choice(Some("p2"), "Focus"),
    ])));
    assert!(req.is_none() && eff.is_none());
    assert!(!picker.loading);
    let (req, eff) = picker.update(PickerMessage::Choose("p2".to_string()));
    assert!(eff.is_none());
    match req {
        Some(PickerRequest::AddTrack { uuid, track_id, title }) => {
            assert_eq!(uuid, "p2");
            assert_eq!(track_id, 42);
            assert_eq!(title, "Focus");
        }
        other => panic!("unexpected {other:?}"),
    }
    assert_eq!(picker.adding_uuid.as_deref(), Some("p2"));
}

#[test]
fn picker_rows_list_the_playlists() {
    let (mut picker, _) = PickerState::open(1);
    let _ = picker.update(PickerMessage::Loaded(Ok(vec![choice(Some("p1"), "One")])));
    let rows = picker.rows();
    assert_eq!(rows.len(), 1);
}

#[test]
fn closing_the_picker_bubbles_a_close_effect() {
    let (mut picker, _) = PickerState::open(1);
    let (req, eff) = picker.update(PickerMessage::Close);
    assert!(req.is_none());
    assert_eq!(eff, Some(PickerEffect::Close));
}

#[test]
fn a_failed_load_shows_its_error() {
    let (mut picker, _) = PickerState::open(1);
    let _ = picker.update(PickerMessage::Loaded(Err("offline".to_string())));
    assert_eq!(picker.error.as_deref(), Some("offline"));
    assert!(!picker.loading);
}

#[test]
fn entity_refs_compare_by_kind_and_id() {
    assert_eq!(EntityRef::Mix("a".into()), EntityRef::Mix("a".into()));
    assert_ne!(EntityRef::Mix("a".into()), EntityRef::Playlist("a".into()));
    assert_ne!(EntityRef::Album(1), EntityRef::Album(2));
}

#[test]
fn order_by_keys_sorts_stably_by_key() {
    assert_eq!(order_by_keys(&vec![(5, 1), (3, 2), (5, 3), (0, 4)]), vec![4, 2, 1, 3]);
    assert!(order_by_keys(&vec![]).is_empty());
}
