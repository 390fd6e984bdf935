use streamboat_desktop::actions::{QueuePosition, ScreenEffect};
use streamboat_desktop::cli::{clock, play_ids, play_output, progress_line, redact_url, url_host_and_path, SearchPick};
use streamboat_desktop::nav::{EntityRef, Nav, NavTarget, Screen};
use streamboat_desktop::proto::Command;
use streamboat_desktop::settings::OutputConfig;
use streamboat_desktop::shell::{
    bar_update, now_playing_update, play_pause_glyph, queue_row, route_search_effect, seek_bar, sidebar_entries,
    track_lines, volume_adjustable, BarMessage,
    NowPlayingMessage,
};
use streamboat_desktop::signal_path::{opt, panel_rows, yes_no, SignalPath};
use streamboat_desktop::snapcast::PlaybackStatus;
use streamboat_desktop::format::AudioQuality;
use streamboat_desktop::widgets::{playback_badges, video_badges, ChipTone};

#[test]
fn seek_bar_keeps_the_position_inside_the_track() {
    let bar = seek_bar(90_000, Some(60_000));
    assert_eq!(bar.position_ms, 60_000);
    assert_eq!(bar.remaining_ms, 0);
    let bar = seek_bar(1_000, None);
    assert_eq!(bar.duration_ms, 1);
    assert_eq!(bar.position_ms, 1);
    let bar = seek_bar(30_000, Some(180_000));
    assert_eq!(bar.remaining_ms, 150_000);
    assert_eq!(bar.duration_slider, 180_000);
    let bar = seek_bar(5_000_000_000, Some(6_000_000_000));
    assert_eq!(bar.position_slider, u32::MAX);
}

#[test]
fn the_queue_screen_moves_and_removes_items() {
    let mut nav = Nav::new(Screen::NowPlaying);
    let mut position = 0u64;
    assert!(now_playing_update(NowPlayingMessage::MoveUp(0), &mut position, &mut nav).is_none());
    assert!(matches!(
        now_playing_update(NowPlayingMessage::MoveUp(2), &mut position, &mut nav),
        Some(Command::MoveQueueItem { from: 2, to: 1 })
    ));
    assert!(matches!(
        now_playing_update(NowPlayingMessage::MoveDown(2), &mut position, &mut nav),
        Some(Command::MoveQueueItem { from: 2, to: 3 })
    ));
    assert!(matches!(
        now_playing_update(NowPlayingMessage::Remove(4), &mut position, &mut nav),
        Some(Command::RemoveQueueItem { index: 4 })
    ));
    let _ = now_playing_update(NowPlayingMessage::SeekChanged(1234), &mut position, &mut nav);
    assert_eq!(position, 1234);
    assert!(matches!(
        now_playing_update(NowPlayingMessage::SeekReleased, &mut position, &mut nav),
        Some(Command::Seek { position_ms: 1234 })
    ));
    let _ = now_playing_update(NowPlayingMessage::OpenLyrics(8), &mut position, &mut nav);
    assert_eq!(nav.current(), &Screen::Lyrics(8));
}

#[test]
fn the_playback_bar_sends_transport_commands() {
    let mut nav = Nav::new(Screen::Home);
    let mut position = 5u64;
    let mut panel = false;
    assert!(matches!(
        bar_update(BarMessage::PlayPause, &mut position, &mut panel, &mut nav),
        Some(Command::TogglePlayPause)
    ));
    assert!(bar_update(BarMessage::ToggleSignalPath, &mut position, &mut panel, &mut nav).is_none());
    assert!(panel);
    assert!(bar_update(BarMessage::ToggleQueue, &mut position, &mut panel, &mut nav).is_none());
    assert_eq!(nav.current(), &Screen::NowPlaying);
    assert!(volume_adjustable(false));
    assert!(!volume_adjustable(true));
}

#[test]
fn search_results_play_queue_and_open_pages() {
    let mut nav = Nav::new(Screen::Search);
    match route_search_effect(ScreenEffect::PlayTrack(3), &mut nav) {
        Some(Command::Play { items }) => assert_eq!(items, vec![3]),
        other => panic!("unexpected {other:?}"),
    }
    assert_eq!(nav.current(), &Screen::NowPlaying);
    match route_search_effect(ScreenEffect::Enqueue(4, QueuePosition::Last), &mut nav) {
        Some(Command::Enqueue { items, position }) => {
            assert_eq!(items, vec![4]);
            assert_eq!(position, QueuePosition::Last);
        }
        other => panic!("unexpected {other:?}"),
    }
    assert!(route_search_effect(ScreenEffect::Navigate(EntityRef::Album(2)), &mut nav).is_none());
    assert_eq!(nav.current(), &Screen::Entity(EntityRef::Album(2)));
}

#[test]
fn cli_clock_and_progress_line() {
    assert_eq!(clock(0), "00:00");
    assert_eq!(clock(61_500), "01:01");
    assert_eq!(clock(6_000_000), "100:00");
    assert_eq!(progress_line(65_000, Some(180_000)), "  01:05 / 03:00");
    assert_eq!(progress_line(65_000, None), "  01:05 / --:--");
}

#[test]
fn play_takes_the_search_hit_or_the_given_ids() {
    assert_eq!(play_ids(vec![1, 2], None), Ok(vec![1, 2]));
    assert_eq!(
        play_ids(vec![], None),
        Err("give at least one track id, or --search".to_string())
    );
    let hit = SearchPick {
        query: "blue".to_string(),
        first: Some(9),
    };
    assert_eq!(play_ids(vec![], Some(hit)), Ok(vec![9]));
    let miss = SearchPick {
        query: "zzz".to_string(),
        first: None,
    };
    assert_eq!(play_ids(vec![], Some(miss)), Err("no results for \"zzz\"".to_string()));
}

#[test]
fn play_picks_the_output() {
    assert_eq!(
        play_output(Some("hw:1,0".to_string()), true),
        OutputConfig::Exclusive {
            device: "hw:1,0".to_string()
        }
    );
    assert_eq!(play_output(None, false), OutputConfig::Shared { device: None });
}

#[test]
fn stream_urls_are_redacted_to_host_and_path() {
    assert_eq!(
        url_host_and_path("https://cdn.example.com/a/b.flac?token=secret"),
        Some(("cdn.example.com".to_string(), "/a/b.flac".to_string()))
    );
    assert_eq!(url_host_and_path("no scheme here"), None);
    assert_eq!(
        redact_url("https://cdn.example.com/a/b.flac?token=secret"),
        "https://cdn.example.com/a/b.flac?<signed>"
    );
    assert_eq!(redact_url("nothing"), "<url>");
    let long = format!("https://h/{}", "x".repeat(50));
    let (_, path) = url_host_and_path(&long).unwrap();
    assert_eq!(path, format!("/{}…", "x".repeat(39)));
    assert_eq!(
        url_host_and_path("http://host"),
        Some(("host".to_string(), "/".to_string()))
    );
}

#[test]
fn signal_path_rows_say_what_is_unknown() {
    assert_eq!(opt(&None), "Unknown");
    assert_eq!(opt(&Some("x".to_string())), "x");
    assert_eq!(yes_no(true), "Yes");
    let sp = SignalPath {
        engine: "gstreamer".to_string(),
        source_format: Some("44100 Hz".to_string()),
        decoder: None,
        sink: None,
        device: None,
        device_format: None,
        exclusive: false,
        converted: None,
        volume_applied: true,
        replaygain_applied: false,
        bit_perfect: None,
    };
    let rows = panel_rows(&sp, None, &Some("AAC".to_string()), Some(AudioQuality::High));
    assert_eq!(rows.len(), 12);
    assert_eq!(rows[0], ("Engine", "gstreamer".to_string()));
    assert_eq!(rows[2], ("Decoder", "Unknown".to_string()));
    assert_eq!(rows[7], ("Mode", "Shared".to_string()));
    assert_eq!(rows[8], ("Converted", "No".to_string()));
    assert_eq!(
        rows[11],
        ("Bit-perfect", "lossy source, bit-perfect not applicable".to_string())
    );
    let rows = panel_rows(&sp, None, &Some("FLAC".to_string()), Some(AudioQuality::Lossless));
    assert_eq!(
        rows[11],
        ("Bit-perfect", "Unknown (engine does not report this)".to_string())
    );
}

#[test]
fn playback_bar_badges_name_quality_mode_and_preview() {
    let badges = playback_badges(Some(AudioQuality::Lossless), false, false);
    let shown: Vec<(&str, ChipTone)> = badges.iter().map(|b| (b.label.as_str(), b.tone)).collect();
    assert_eq!(shown, vec![("LOSSLESS", ChipTone::Accent), ("SHARED", ChipTone::Muted)]);
    let badges = playback_badges(None, true, true);
    let shown: Vec<(&str, ChipTone)> = badges.iter().map(|b| (b.label.as_str(), b.tone)).collect();
    assert_eq!(
        shown,
        vec![
            ("—", ChipTone::Accent),
            ("EXCLUSIVE", ChipTone::Muted),
            ("PREVIEW", ChipTone::Warning)
        ]
    );
}

#[test]
fn video_badges_warn_of_explicit_content_first() {
    let badges = video_badges(Some(true), Some("MP4_1080P".to_string()));
    let shown: Vec<(&str, ChipTone)> = badges.iter().map(|b| (b.label.as_str(), b.tone)).collect();
    assert_eq!(shown, vec![("EXPLICIT", ChipTone::Warning), ("MP4_1080P", ChipTone::Muted)]);
    assert!(video_badges(Some(false), None).is_empty());
    assert!(video_badges(None, None).is_empty());
}

#[test]
fn sidebar_marks_the_current_screen() {
    let mut nav = Nav::new(Screen::Home);
    nav.go_to(Screen::Collection);
    let entries = sidebar_entries(&nav);
    let labels: Vec<&str> = entries.iter().map(|e| e.label.as_str()).collect();
    assert_eq!(
        labels,
        vec!["Home", "Explore", "Search", "Now Playing", "My Collection", "Settings"]
    );
    let active: Vec<NavTarget> = entries.iter().filter(|e| e.active).map(|e| e.target).collect();
    assert_eq!(active, vec![NavTarget::Collection]);
    nav.go_to(Screen::Entity(EntityRef::Album(7)));
    assert!(sidebar_entries(&nav).iter().all(|e| !e.active));
}

#[test]
fn the_playing_queue_row_cannot_be_removed() {
    let first = queue_row(0, 3, Some(1));
    assert!(!first.is_current && !first.move_up && first.move_down && first.remove);
    let playing = queue_row(1, 3, Some(1));
    assert!(playing.is_current && playing.move_up && playing.move_down && !playing.remove);
    let last = queue_row(2, 3, None);
    assert!(!last.is_current && last.move_up && !last.move_down && last.remove);
}

#[test]
fn idle_player_shows_the_nothing_playing_placeholder() {
    assert_eq!(
        track_lines(None),
        ("Nothing playing".to_string(), "streamboat".to_string())
    );
    assert_eq!(
        track_lines(Some(("Blue in Green", "Miles Davis"))),
        ("Blue in Green".to_string(), "Miles Davis".to_string())
    );
    assert_eq!(play_pause_glyph(PlaybackStatus::Playing), "⏸");
    assert_eq!(play_pause_glyph(PlaybackStatus::Paused), "▶");
    assert_eq!(play_pause_glyph(PlaybackStatus::Buffering), "▶");
}
