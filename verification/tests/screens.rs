use std::collections::HashSet;

use streamboat_desktop::actions::{ScreenEffect, TrackAction};
use streamboat_desktop::album::{self, album_meta, bio_heading, playlist_meta};
use streamboat_desktop::artist::{self, AlbumTab};
use streamboat_desktop::favorites::{favorite_track_ids, lists_id, lists_text, Entry, Item};
use streamboat_desktop::lyrics::{self, highlighted_index, Effect, LyricLine, LyricsPayload, Status};
use streamboat_desktop::mix;
use streamboat_desktop::nav::EntityRef;
use streamboat_desktop::track;
use streamboat_desktop::video;

fn track_item(id: u64, title: &str) -> Item<String> {
    Item {
        id,
        image: None,
        data: title.to_string(),
    }
}

fn lines() -> Vec<LyricLine> {
    vec![
        LyricLine {
            time_ms: 0,
            text: "First line".into(),
        },
        LyricLine {
            time_ms: 5_000,
            text: "Second line".into(),
        },
        LyricLine {
            time_ms: 10_000,
            text: "Third line".into(),
        },
    ]
}

#[test]
fn highlighted_index_picks_the_most_recent_line() {
    let l = lines();
    assert_eq!(highlighted_index(&l, 0), Some(0));
    assert_eq!(highlighted_index(&l, 4_999), Some(0));
    assert_eq!(highlighted_index(&l, 5_000), Some(1));
    assert_eq!(highlighted_index(&l, 999_999), Some(2));
}

#[test]
fn highlighted_index_is_none_before_the_first_line() {
    let l = vec![LyricLine {
        time_ms: 1_000,
        text: "Late start".into(),
    }];
    assert_eq!(highlighted_index(&l, 0), None);
}

#[test]
fn position_changed_updates_the_highlighted_line() {
    let mut state = lyrics::State::new();
    state.status = Status::Synced(lines());
    let (_, effect) = state.update(lyrics::Message::PositionChanged(6_000));
    assert!(effect.is_none());
    assert_eq!(state.highlighted, Some(1));
}

#[test]
fn seek_to_bubbles_a_seek_effect() {
    let mut state = lyrics::State::new();
    let (_, effect) = state.update(lyrics::Message::SeekTo(5_000));
    assert!(matches!(effect, Some(Effect::Seek(5_000))));
}

#[test]
fn requested_is_idempotent_for_the_same_already_loaded_track() {
    let mut state = lyrics::State::new();
    state.track_id = Some(1);
    state.status = Status::Synced(lines());
    let (request, effect) = state.update(lyrics::Message::Requested(1));
    assert!(effect.is_none());
    assert!(request.is_none());
    assert!(matches!(state.status, Status::Synced(_)));
}

#[test]
fn a_new_track_request_starts_loading_it() {
    let mut state = lyrics::State::new();
    let (request, _) = state.update(lyrics::Message::Requested(7));
    assert_eq!(request, Some(lyrics::Request::Load(7)));
    assert!(matches!(state.status, Status::Loading));
    assert_eq!(state.track_id, Some(7));
}

#[test]
fn blank_subtitles_fall_back_to_the_plain_text() {
    let mut state = lyrics::State::new();
    let _ = state.update(lyrics::Message::Requested(3));
    let payload = LyricsPayload {
        subtitles: Some("   ".to_string()),
        synced: vec![],
        lyrics: Some("plain words".to_string()),
    };
    let _ = state.update(lyrics::Message::Loaded(3, Ok(Some(payload))));
    match &state.status {
        Status::Plain(t) => assert_eq!(t, "plain words"),
        other => panic!("unexpected {other:?}"),
    }
}

#[test]
fn no_payload_means_no_lyrics() {
    let mut state = lyrics::State::new();
    let _ = state.update(lyrics::Message::Requested(3));
    let _ = state.update(lyrics::Message::Loaded(3, Ok(None)));
    assert!(matches!(state.status, Status::NoLyrics));
}

#[test]
fn track_action_updates_favorite_set_on_success() {
    let mut state: album::State<String, String> = album::State::new(1);
    state.tracks = vec![track_item(10, "Track One")];
    let (_, effects) = state.update(album::Message::TrackFavoriteToggled(Ok((10, true))));
    assert!(effects.is_empty());
    assert!(state.favorite_tracks.contains(&10));
}

#[test]
fn play_all_effect_carries_every_track_in_order() {
    let mut state: album::State<String, String> = album::State::new(1);
    state.tracks = vec![track_item(10, "A"), track_item(11, "B")];
    let (_, effects) = state.update(album::Message::PlayAll);
    assert_eq!(effects.len(), 1);
    match &effects[0] {
        ScreenEffect::PlayTracks(ids) => assert_eq!(ids, &vec![10, 11]),
        _ => panic!("expected PlayTracks"),
    }
}

#[test]
fn shuffle_plays_every_track_once() {
    let mut state: album::State<String, String> = album::State::new(1);
    state.tracks = vec![track_item(10, "A"), track_item(11, "B"), track_item(12, "C")];
    let (_, effects) = state.update(album::Message::Shuffle);
    match &effects[0] {
        ScreenEffect::PlayTracks(ids) => {
            let mut ids = ids.clone();
            ids.sort_unstable();
            assert_eq!(ids, vec![10, 11, 12]);
        }
        _ => panic!("expected PlayTracks"),
    }
}

#[test]
fn album_favourite_toggle_asks_with_the_current_state() {
    let mut state: album::State<String, String> = album::State::new(4);
    state.is_favorite = true;
    let (request, effects) = state.update(album::Message::ToggleAlbumFavorite);
    assert!(effects.is_empty());
    assert_eq!(
        request,
        Some(album::Request::ToggleAlbumFavorite {
            album_id: 4,
            currently_favorite: true
        })
    );
}

#[test]
fn album_track_favourite_toggle_uses_the_favourite_set() {
    let mut state: album::State<String, String> = album::State::new(4);
    let mut favs = HashSet::new();
    favs.insert(10u64);
    let _ = state.update(album::Message::FavoritesLoaded(Ok((false, favs))));
    let (request, _) = state.update(album::Message::Track(TrackAction::ToggleFavorite(10)));
    assert_eq!(
        request,
        Some(album::Request::ToggleTrackFavorite {
            track_id: 10,
            currently_favorite: true
        })
    );
}

#[test]
fn tab_selection_switches_the_shown_album_list() {
    let mut state: artist::State<String, String, String, String> = artist::State::new(1);
    let (_, effects) = state.update(artist::Message::TabSelected(AlbumTab::Compilations));
    assert!(effects.is_empty());
    assert_eq!(state.tab, AlbumTab::Compilations);
}

#[test]
fn album_tab_labels() {
    assert_eq!(AlbumTab::Albums.label(), "Albums");
    assert_eq!(AlbumTab::EpsAndSingles.label(), "EPs & Singles");
    assert_eq!(AlbumTab::Compilations.label(), "Compilations");
}

#[test]
fn play_all_carries_every_track_id() {
    let mut state: mix::State<String> = mix::State::new("mix-1".into());
    state.items = vec![
        Entry {
            track: Some(1),
            image: None,
            data: "A".to_string(),
        },
        Entry {
            track: Some(2),
            image: None,
            data: "B".to_string(),
        },
    ];
    let (_, effects) = state.update(mix::Message::PlayAll);
    match &effects[0] {
        ScreenEffect::PlayTracks(ids) => assert_eq!(ids, &vec![1, 2]),
        _ => panic!("expected PlayTracks"),
    }
}

#[test]
fn track_started_load_kicks_off_the_album_load() {
    let mut state: track::State<String, String, String> = track::State::new(42);
    let (request, effects) = state.update(track::Message::TrackLoaded(Ok(Some(7))));
    assert!(effects.is_empty());
    assert_eq!(state.album.album_id(), 7);
    assert!(matches!(request, Some(track::Request::LoadAlbum(7))));
}

#[test]
fn a_video_page_links_to_entities() {
    let mut state: video::State<String> = video::State::new(3);
    let effects = state.update(video::Message::Navigate(EntityRef::Artist(5)));
    assert!(matches!(effects[..], [ScreenEffect::Navigate(EntityRef::Artist(5))]));
}

#[test]
fn album_header_line_has_year_count_and_length() {
    assert_eq!(
        album_meta(&Some("2024-05-01".to_string()), None, &vec![Some(200), Some(100), None]),
        "2024 · 3 tracks · 05:00"
    );
    assert_eq!(album_meta(&None, Some(12), &vec![Some(61)]), "12 tracks · 01:01");
    assert_eq!(album_meta(&Some("1999".to_string()), Some(1), &vec![]), "1999 · 1 tracks · 00:00");
}

#[test]
fn bio_heading_names_its_source() {
    assert_eq!(bio_heading(&Some("Wikipedia".to_string())), "Biography — Wikipedia");
    assert_eq!(bio_heading(&None), "Biography");
}

#[test]
fn playlist_header_line_has_count_and_length() {
    assert_eq!(playlist_meta(Some(12), 0, Some(3725)), "12 tracks · 1:02:05");
    assert_eq!(playlist_meta(None, 4, None), "4 tracks · --:--");
}

#[test]
fn favourite_ids_keep_the_numbers_only() {
    let ids = vec!["12".to_string(), "x1".to_string(), "+7".to_string(), "12".to_string()];
    let set = favorite_track_ids(&ids);
    let mut got: Vec<u64> = set.into_iter().collect();
    got.sort_unstable();
    assert_eq!(got, vec![7, 12]);
    assert!(lists_id(&vec!["5".to_string(), "42".to_string()], 42));
    assert!(!lists_id(&vec!["042".to_string()], 42));
    assert!(lists_text(&vec!["uuid-1".to_string()], "uuid-1"));
}

#[test]
fn page_fullness_decides_more() {
    assert!(streamboat_desktop::collection::page_has_more(50, 50));
    assert!(!streamboat_desktop::collection::page_has_more(49, 50));
    assert!(streamboat_desktop::playlist::page_has_more(50, 0, 50, None));
    assert!(streamboat_desktop::playlist::page_has_more(50, 0, 50, Some(51)));
    assert!(!streamboat_desktop::playlist::page_has_more(50, 0, 50, Some(50)));
    assert!(!streamboat_desktop::playlist::page_has_more(10, 0, 50, None));
}

#[test]
fn shown_albums_follow_the_selected_tab() {
    let mut state: artist::State<String, String, String, String> = artist::State::new(1);
    let album = |id: u64| Item {
        id,
        image: None,
        data: format!("album {}", id),
    };
    let _ = state.update(artist::Message::AlbumsLoaded(AlbumTab::Albums, Ok(vec![album(1)])));
    let _ = state.update(artist::Message::AlbumsLoaded(
        AlbumTab::EpsAndSingles,
        Ok(vec![album(2), album(3)]),
    ));
    assert_eq!(state.shown_albums().len(), 1);
    assert_eq!(state.shown_albums()[0].id, 1);
    let _ = state.update(artist::Message::TabSelected(AlbumTab::EpsAndSingles));
    let ids: Vec<u64> = state.shown_albums().iter().map(|a| a.id).collect();
    assert_eq!(ids, vec![2, 3]);
    let _ = state.update(artist::Message::TabSelected(AlbumTab::Compilations));
    assert!(state.shown_albums().is_empty());
}

#[test]
fn follow_button_reads_following_once_followed() {
    let mut state: artist::State<String, String, String, String> = artist::State::new(1);
    assert_eq!(state.follow_label(), "Follow");
    state.is_following = true;
    assert_eq!(state.follow_label(), "Following");
}
