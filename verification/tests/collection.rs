use streamboat_desktop::collection::{
    display_order, folder_display_name, AlbumOrder, ItemOrder, ListFooter, Message, MixEntry, Paged,
    PlaylistEntry, Request,
    State, Tab,
};
use streamboat_desktop::favorites::Item;
use streamboat_desktop::json::Json;

type Collection = State<String, String, String, String, String>;

fn fav(id: u64) -> Item<String> {
    Item {
        id,
        image: Some(format!("img-{id}")),
        data: format!("item {id}"),
    }
}

#[test]
fn tab_selection_switches_the_active_tab() {
    let mut state = Collection::new();
    let (request, effects) = state.update(Message::TabSelected(Tab::Albums));
    assert!(effects.is_empty());
    assert_eq!(state.tab, Tab::Albums);
    assert!(matches!(
        request,
        Some(Request::LoadAlbums {
            offset: 0,
            order: AlbumOrder::Date
        })
    ));
}

#[test]
fn unfavoriting_a_track_removes_it_from_the_list() {
    let mut state = Collection::new();
    let _ = state.update(Message::TracksLoaded(Ok((vec![fav(1)], false))));
    let (_, effects) = state.update(Message::TrackFavoriteToggled(Ok((1, false))));
    assert!(effects.is_empty());
    assert!(state.tracks.items.is_empty());
}

#[test]
fn create_playlist_dialog_opens_and_closes() {
    let mut state = Collection::new();
    let _ = state.update(Message::OpenCreatePlaylist);
    assert!(state.create_playlist.is_some());
    let _ = state.update(Message::CancelCreatePlaylist);
    assert!(state.create_playlist.is_none());
}

#[test]
fn tab_labels() {
    let labels: Vec<&str> = Tab::all().iter().map(|t| t.label()).collect();
    assert_eq!(labels, vec!["Tracks", "Albums", "Artists", "Playlists", "Mixes & Radio"]);
}

#[test]
fn every_message_marks_the_screen_opened() {
    let mut state = Collection::new();
    assert!(!state.is_loaded());
    let _ = state.update(Message::TogglePlaylistSort);
    assert!(state.is_loaded());
    assert!(state.playlists_sort_by_name);
}

#[test]
fn a_second_visit_to_a_loaded_tab_fetches_nothing() {
    let mut state = Collection::new();
    let (first, _) = state.update(Message::TabSelected(Tab::Artists));
    assert!(first.is_some());
    let (second, _) = state.update(Message::TabSelected(Tab::Artists));
    assert!(second.is_none());
}

#[test]
fn pages_append_and_advance_the_offset() {
    let mut state = Collection::new();
    let _ = state.update(Message::TracksLoaded(Ok((vec![fav(1), fav(2)], true))));
    assert_eq!(state.tracks.offset, 2);
    assert!(state.tracks.has_more);
    let (request, _) = state.update(Message::LoadMoreTracks);
    assert!(matches!(
        request,
        Some(Request::LoadTracks {
            offset: 2,
            order: ItemOrder::Date
        })
    ));
    assert!(state.tracks.loading);
    let _ = state.update(Message::TracksLoaded(Ok((vec![fav(3)], false))));
    assert_eq!(state.tracks.items.len(), 3);
    assert_eq!(state.tracks.offset, 3);
    assert!(!state.tracks.loading);
}

#[test]
fn a_new_order_empties_the_list_and_refetches_from_the_start() {
    let mut state = Collection::new();
    let _ = state.update(Message::TracksLoaded(Ok((vec![fav(1)], true))));
    let (request, _) = state.update(Message::TrackOrderChanged(ItemOrder::Name));
    assert!(state.tracks.items.is_empty());
    assert_eq!(state.tracks.offset, 0);
    assert!(matches!(
        request,
        Some(Request::LoadTracks {
            offset: 0,
            order: ItemOrder::Name
        })
    ));
}

#[test]
fn albums_page_asks_for_its_covers() {
    let mut state = Collection::new();
    let (_, effects) = state.update(Message::AlbumsLoaded(Ok((vec![fav(5)], false))));
    match &effects[..] {
        [streamboat_desktop::actions::ScreenEffect::ImagesNeeded(ids)] => {
            assert_eq!(ids, &vec!["img-5".to_string()])
        }
        _ => panic!("expected one ImagesNeeded"),
    }
}

#[test]
fn unfavouriting_a_mix_drops_it_by_id() {
    let mut state = Collection::new();
    let mixes = vec![
        MixEntry {
            id: Some("m1".to_string()),
            data: "one".to_string(),
        },
        MixEntry {
            id: None,
            data: "nameless".to_string(),
        },
        MixEntry {
            id: Some("m2".to_string()),
            data: "two".to_string(),
        },
    ];
    let _ = state.update(Message::MixesLoaded(Ok((mixes, false))));
    let _ = state.update(Message::MixUnfavorited("m1".to_string(), Ok(())));
    let left: Vec<Option<String>> = state.mixes.items.iter().map(|m| m.id.clone()).collect();
    assert_eq!(left, vec![None, Some("m2".to_string())]);
}

#[test]
fn a_blank_playlist_name_is_not_submitted() {
    let mut state = Collection::new();
    let _ = state.update(Message::OpenCreatePlaylist);
    let _ = state.update(Message::CreatePlaylistNameChanged("   ".to_string()));
    let (request, _) = state.update(Message::SubmitCreatePlaylist);
    assert!(request.is_none());
    let _ = state.update(Message::CreatePlaylistNameChanged("Mix tape".to_string()));
    let _ = state.update(Message::CreatePlaylistDescriptionChanged(" ".to_string()));
    let (request, _) = state.update(Message::SubmitCreatePlaylist);
    match request {
        Some(Request::CreatePlaylist { name, description }) => {
            assert_eq!(name, "Mix tape");
            assert_eq!(description, None);
        }
        other => panic!("unexpected {other:?}"),
    }
    assert!(state.create_playlist.as_ref().unwrap().saving);
    let (request, _) = state.update(Message::PlaylistCreated(Ok(())));
    assert!(matches!(request, Some(Request::LoadPlaylists)));
    assert!(state.create_playlist.is_none());
}

#[test]
fn the_playlists_tab_loads_playlists_and_folders_once() {
    let mut state = Collection::new();
    let (request, _) = state.update(Message::TabSelected(Tab::Playlists));
    assert!(matches!(request, Some(Request::LoadPlaylistsAndFolders)));
    assert!(state.playlists_loading);
    let ps = vec![PlaylistEntry {
        uuid: Some("u".to_string()),
        title: "T".to_string(),
        cover: None,
        data: "p".to_string(),
    }];
    let (_, effects) = state.update(Message::PlaylistsLoaded(Ok(ps)));
    assert!(!state.playlists_loading);
    assert_eq!(effects.len(), 1);
}

#[test]
fn folder_names_prefer_name_then_title() {
    let folder = |fields: Vec<(&str, Json)>| {
        Json::Object(fields.into_iter().map(|(k, v)| (k.to_string(), v)).collect())
    };
    assert_eq!(
        folder_display_name(&folder(vec![
            ("title", Json::Text("T".into())),
            ("name", Json::Text("N".into()))
        ])),
        Some("N".to_string())
    );
    assert_eq!(
        folder_display_name(&folder(vec![("title", Json::Text("T".into()))])),
        Some("T".to_string())
    );
    assert_eq!(
        folder_display_name(&folder(vec![
            ("name", Json::Number(Some(3))),
            ("title", Json::Text("T".into()))
        ])),
        None
    );
    assert_eq!(folder_display_name(&Json::Null), None);
}

#[test]
fn collection_starts_on_tracks() {
    assert!(matches!(
        Collection::load(),
        Request::LoadTracks {
            offset: 0,
            order: ItemOrder::Date
        }
    ));
    let state = Collection::new();
    assert_eq!(state.tab, Tab::Tracks);
    assert!(state.tracks.loading);
}

#[test]
fn playlists_sort_by_title_keeping_ties_in_fetched_order() {
    let p = |t: &str, u: &str| PlaylistEntry {
        uuid: Some(u.to_string()),
        title: t.to_string(),
        cover: None,
        data: String::new(),
    };
    let ps = vec![p("Road", "a"), p("Focus", "b"), p("Road", "c"), p("Ambient", "d"), p("Rock", "e")];
    assert_eq!(display_order(&ps, false), vec![0, 1, 2, 3, 4]);
    assert_eq!(display_order(&ps, true), vec![3, 1, 0, 2, 4]);
    let mut by_std: Vec<usize> = (0..ps.len()).collect();
    by_std.sort_by(|a, b| ps[*a].title.cmp(&ps[*b].title));
    assert_eq!(display_order(&ps, true), by_std);
    let unicode = vec![p("Zed", "1"), p("Ärger", "2"), p("Apple", "3"), p("App", "4")];
    let mut by_std: Vec<usize> = (0..unicode.len()).collect();
    by_std.sort_by(|a, b| unicode[*a].title.cmp(&unicode[*b].title));
    assert_eq!(display_order(&unicode, true), by_std);
}

#[test]
fn list_footer_and_empty_note_follow_the_paging_state() {
    let mut list: Paged<u64, ItemOrder> = Paged::new(ItemOrder::Date, true);
    assert!(!list.shows_empty_note());
    assert_eq!(list.footer(), ListFooter::Loading);
    list.arrived(vec![1, 2], true);
    assert!(!list.shows_empty_note());
    assert_eq!(list.footer(), ListFooter::LoadMore);
    list.arrived(vec![], false);
    assert_eq!(list.footer(), ListFooter::Nothing);
    let empty: Paged<u64, ItemOrder> = Paged::new(ItemOrder::Name, false);
    assert!(empty.shows_empty_note());
    assert_eq!(empty.footer(), ListFooter::Nothing);
}
