use streamboat_desktop::actions::ScreenEffect;
use streamboat_desktop::favorites::{favorite_label, Entry};
use streamboat_desktop::playlist::{HeaderAction, Message, PlaylistInfo, Request, RowEdit, State};

type Playlist = State<String, String>;

fn track_item(id: u64, title: &str) -> Entry<String> {
    Entry {
        track: Some(id),
        image: None,
        data: title.to_string(),
    }
}

fn ids(state: &Playlist) -> Vec<u64> {
    state.items.iter().map(|e| e.track.unwrap()).collect()
}

#[test]
fn removing_an_item_drops_it_from_the_local_list() {
    let mut state = Playlist::new("uuid-1".into());
    state.items = vec![track_item(1, "A"), track_item(2, "B")];
    let (_, effects) = state.update(Message::ItemRemoved(0, Ok(())));
    assert!(effects.is_empty());
    assert_eq!(state.items.len(), 1);
    assert_eq!(state.items[0].track, Some(2));
}

#[test]
fn moving_an_item_up_swaps_local_order() {
    let mut state = Playlist::new("uuid-1".into());
    state.items = vec![track_item(1, "A"), track_item(2, "B")];
    let (_, effects) = state.update(Message::ItemMoved(1, 0, Ok(())));
    assert!(effects.is_empty());
    assert_eq!(state.items[0].track, Some(2));
    assert_eq!(state.items[1].track, Some(1));
}

#[test]
fn confirmed_delete_bubbles_a_deleted_effect() {
    let mut state = Playlist::new("uuid-1".into());
    let (_, effects) = state.update(Message::Deleted(Ok(())));
    assert_eq!(effects.len(), 1);
    assert!(matches!(effects[0], ScreenEffect::Deleted));
}

#[test]
fn moving_up_then_back_down_restores_the_order() {
    let mut state = Playlist::new("u".into());
    state.items = vec![track_item(1, "A"), track_item(2, "B"), track_item(3, "C")];
    let _ = state.update(Message::ItemMoved(2, 0, Ok(())));
    assert_eq!(ids(&state), vec![3, 1, 2]);
    let _ = state.update(Message::ItemMoved(0, 2, Ok(())));
    assert_eq!(ids(&state), vec![1, 2, 3]);
}

#[test]
fn move_requests_stay_inside_the_list() {
    let mut state = Playlist::new("u".into());
    state.items = vec![track_item(1, "A"), track_item(2, "B")];
    let (request, _) = state.update(Message::MoveUp(0));
    assert!(request.is_none());
    let (request, _) = state.update(Message::MoveDown(1));
    assert!(request.is_none());
    let (request, _) = state.update(Message::MoveDown(0));
    assert!(matches!(request, Some(Request::Reorder { from: 0, to: 1 })));
    let (request, _) = state.update(Message::MoveUp(1));
    assert!(matches!(request, Some(Request::Reorder { from: 1, to: 0 })));
}

#[test]
fn load_more_starts_after_the_items_shown() {
    let mut state = Playlist::new("u".into());
    let _ = state.update(Message::ItemsLoaded(Ok((vec![track_item(1, "A"), track_item(2, "B")], true))));
    assert!(state.has_more);
    let (request, _) = state.update(Message::LoadMore);
    assert!(matches!(request, Some(Request::LoadItems { offset: 2 })));
}

#[test]
fn editing_saves_title_and_drops_an_empty_description() {
    let mut state = Playlist::new("u".into());
    let _ = state.update(Message::PlaylistLoaded(Ok(PlaylistInfo {
        title: "Old".to_string(),
        description: Some("desc".to_string()),
        cover: Some("cov".to_string()),
        data: "p".to_string(),
    })));
    assert!(!state.loading);
    let _ = state.update(Message::StartEdit);
    let edit = state.edit.as_ref().unwrap();
    assert_eq!(edit.title, "Old");
    assert_eq!(edit.description, "desc");
    let _ = state.update(Message::EditTitleChanged("New".to_string()));
    let (request, _) = state.update(Message::SaveEdit);
    match request {
        Some(Request::SaveEdit { title, description }) => {
            assert_eq!(title, "New");
            assert_eq!(description, "desc");
        }
        other => panic!("unexpected {other:?}"),
    }
    let _ = state.update(Message::EditSaved(Ok(("New".to_string(), String::new()))));
    let p = state.playlist.as_ref().unwrap();
    assert_eq!(p.title, "New");
    assert_eq!(p.description, None);
    assert!(state.edit.is_none());
}

#[test]
fn play_all_plays_only_the_tracks() {
    let mut state = Playlist::new("u".into());
    state.items = vec![
        track_item(4, "A"),
        Entry {
            track: None,
            image: None,
            data: "a video".to_string(),
        },
        track_item(5, "B"),
    ];
    let (_, effects) = state.update(Message::PlayAll);
    match &effects[..] {
        [ScreenEffect::PlayTracks(ids)] => assert_eq!(ids, &vec![4, 5]),
        _ => panic!("expected PlayTracks"),
    }
}

#[test]
fn a_failed_delete_closes_the_confirmation() {
    let mut state = Playlist::new("u".into());
    let _ = state.update(Message::RequestDelete);
    let (request, _) = state.update(Message::ConfirmDelete);
    assert!(matches!(request, Some(Request::Delete)));
    assert!(state.deleting);
    let _ = state.update(Message::Deleted(Err("nope".to_string())));
    assert!(!state.deleting);
    assert!(!state.confirm_delete);
    assert_eq!(state.error.as_deref(), Some("nope"));
}

#[test]
fn only_an_owner_gets_reordering_buttons_on_track_rows() {
    let mut state = Playlist::new("uuid-1".into());
    state.items = vec![
        track_item(1, "A"),
        Entry {
            track: None,
            image: None,
            data: "clip".to_string(),
        },
        track_item(3, "C"),
    ];
    assert_eq!(state.row_edit(0), None);
    state.is_owner = true;
    assert_eq!(
        state.row_edit(0),
        Some(RowEdit {
            move_up: false,
            move_down: true
        })
    );
    assert_eq!(state.row_edit(1), None);
    assert_eq!(
        state.row_edit(2),
        Some(RowEdit {
            move_up: true,
            move_down: false
        })
    );
    assert_eq!(state.row_edit(3), None);
}

#[test]
fn only_the_owner_sees_edit_and_delete_in_the_header() {
    let mut state = Playlist::new("uuid-1".into());
    assert_eq!(
        state.header_actions(),
        vec![HeaderAction::PlayAll, HeaderAction::ToggleFavorite]
    );
    state.is_owner = true;
    assert_eq!(
        state.header_actions(),
        vec![
            HeaderAction::PlayAll,
            HeaderAction::ToggleFavorite,
            HeaderAction::Edit,
            HeaderAction::Delete
        ]
    );
    assert_eq!(favorite_label(false), "♡ Favourite");
    assert_eq!(favorite_label(true), "♥ Favourited");
}
