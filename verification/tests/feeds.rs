use streamboat_desktop::actions::{QueuePosition, ScreenEffect};
use streamboat_desktop::explore::{self, ExpandedItem, PageRow};
use streamboat_desktop::favorites::Item;
use streamboat_desktop::format::{FeedItem, FeedSection, PageModule};
use streamboat_desktop::home::{self, tab_label, HomeFeed, HomeTab, Request};
use streamboat_desktop::json::Json;
use streamboat_desktop::search::{self, SearchResults, TypeFilter};

fn album_item(id: u64, cover: &str) -> FeedItem {
    FeedItem {
        kind: "ALBUM".to_string(),
        title: Some(format!("Album {id}")),
        id: Some(Json::Number(Some(id))),
        extra: vec![("cover".to_string(), Json::Text(cover.to_string()))],
    }
}

fn section(items: Vec<FeedItem>) -> FeedSection {
    FeedSection {
        kind: "HORIZONTAL_LIST".to_string(),
        title: Some("S".to_string()),
        items,
        api_path: Some("pages/x".to_string()),
        has_more: true,
    }
}

type Search = search::State<String, String, String, String>;

fn results() -> SearchResults<String, String, String, String> {
    SearchResults {
        tracks: vec![],
        albums: vec![Item {
            id: 1,
            image: Some("cov".to_string()),
            data: "a".to_string(),
        }],
        artists: vec![Item {
            id: 2,
            image: Some("pic".to_string()),
            data: "r".to_string(),
        }],
        playlists: vec![],
    }
}

#[test]
fn type_filter_labels_and_visibility() {
    let labels: Vec<&str> = TypeFilter::all().iter().map(|f| f.label()).collect();
    assert_eq!(labels, vec!["All", "Tracks", "Albums", "Artists", "Playlists"]);
    assert!(TypeFilter::All.shows(TypeFilter::Albums));
    assert!(TypeFilter::Albums.shows(TypeFilter::Albums));
    assert!(!TypeFilter::Tracks.shows(TypeFilter::Albums));
}

#[test]
fn typing_debounces_and_a_stale_tick_is_dropped() {
    let mut state = Search::new();
    let (request, _) = state.update(search::Message::QueryChanged("blue".to_string()));
    assert!(matches!(request, Some(search::Request::Debounce { generation: 1 })));
    let _ = state.update(search::Message::QueryChanged("blue in".to_string()));
    let (request, _) = state.update(search::Message::Debounced(1));
    assert!(request.is_none());
    let (request, _) = state.update(search::Message::Debounced(2));
    match request {
        Some(search::Request::Search { query, generation }) => {
            assert_eq!(query, "blue in");
            assert_eq!(generation, 2);
        }
        other => panic!("unexpected {other:?}"),
    }
    assert!(state.loading);
}

#[test]
fn results_of_an_older_query_are_ignored() {
    let mut state = Search::new();
    let _ = state.update(search::Message::QueryChanged("a".to_string()));
    let _ = state.update(search::Message::QueryChanged("ab".to_string()));
    let (_, effects) = state.update(search::Message::ResultsLoaded(1, Ok(results())));
    assert!(effects.is_empty());
    assert!(state.results.is_none());
    let (_, effects) = state.update(search::Message::ResultsLoaded(2, Ok(results())));
    assert!(state.results.is_some());
    match &effects[..] {
        [ScreenEffect::ImagesNeeded(ids)] => {
            assert_eq!(ids, &vec!["cov".to_string(), "pic".to_string()])
        }
        _ => panic!("expected ImagesNeeded"),
    }
}

#[test]
fn clearing_the_query_clears_the_results() {
    let mut state = Search::new();
    let _ = state.update(search::Message::QueryChanged("a".to_string()));
    let _ = state.update(search::Message::ResultsLoaded(1, Ok(results())));
    let (request, _) = state.update(search::Message::QueryChanged("  ".to_string()));
    assert!(request.is_none());
    assert!(state.results.is_none());
    assert!(!state.loading);
}

#[test]
fn search_clicks_play_queue_and_navigate() {
    let mut state = Search::new();
    let (_, e) = state.update(search::Message::TrackClicked(9));
    assert!(matches!(e[..], [ScreenEffect::PlayTrack(9)]));
    let (_, e) = state.update(search::Message::PlayNext(9));
    assert!(matches!(e[..], [ScreenEffect::Enqueue(9, QueuePosition::Next)]));
    let (_, e) = state.update(search::Message::AddLast(9));
    assert!(matches!(e[..], [ScreenEffect::Enqueue(9, QueuePosition::Last)]));
}

#[test]
fn home_feed_asks_for_its_artwork() {
    let mut state = home::State::new();
    assert!(state.loading);
    let feed = HomeFeed {
        items: vec![section(vec![album_item(1, "c1"), album_item(2, "c2")])],
        cursor: Some("next".to_string()),
    };
    let (_, effects) = state.update(home::Message::FeedLoaded(Ok(feed)));
    assert!(!state.loading);
    match &effects[..] {
        [ScreenEffect::ImagesNeeded(ids)] => assert_eq!(ids, &vec!["c1".to_string(), "c2".to_string()]),
        _ => panic!("expected ImagesNeeded"),
    }
    let (request, _) = state.update(home::Message::LoadMore);
    match request {
        Some(Request::LoadFeed { slug, cursor }) => {
            assert_eq!(slug, "static");
            assert_eq!(cursor.as_deref(), Some("next"));
        }
        other => panic!("unexpected {other:?}"),
    }
}

#[test]
fn home_view_all_appends_and_closes_the_section() {
    let mut state = home::State::new();
    let feed = HomeFeed {
        items: vec![section(vec![album_item(1, "c1")])],
        cursor: None,
    };
    let _ = state.update(home::Message::FeedLoaded(Ok(feed)));
    let (request, _) = state.update(home::Message::ViewAll(0, "pages/x".to_string()));
    assert!(matches!(request, Some(Request::Expand { index: 0, offset: 1, .. })));
    let (_, effects) = state.update(home::Message::ViewAllLoaded(0, Ok(vec![album_item(3, "c3")])));
    assert_eq!(state.sections[0].items.len(), 2);
    assert!(!state.sections[0].has_more);
    assert_eq!(effects.len(), 1);
    let _ = state.update(home::Message::ViewAllLoaded(0, Err("timeout".to_string())));
    assert_eq!(state.error.as_deref(), Some("couldn't load more: timeout"));
}

#[test]
fn home_tabs_switch_by_slug() {
    let mut state = home::State::new();
    let _ = state.update(home::Message::TabsLoaded(Ok(vec![
        HomeTab {
            name: Some("For you".to_string()),
            slug: Some("static".to_string()),
        },
        HomeTab {
            name: None,
            slug: None,
        },
    ])));
    let (request, _) = state.update(home::Message::SelectTab(1));
    assert!(request.is_none());
    let (request, _) = state.update(home::Message::SelectTab(0));
    assert!(matches!(request, Some(Request::LoadFeed { .. })));
    assert_eq!(tab_label(&state.tabs[1], 1), "Tab 1");
    assert_eq!(tab_label(&state.tabs[0], 0), "For you");
    let first = home::State::load();
    assert!(matches!(first[0], Request::LoadTabs));
}

#[test]
fn explore_flattens_rows_and_extends_a_module() {
    let mut state = explore::State::new();
    let module = |kind: &str| PageModule {
        kind: kind.to_string(),
        title: None,
        items: vec![Json::Object(vec![("cover".to_string(), Json::Text("x".to_string()))])],
        show_more_api_path: None,
    };
    let rows = vec![
        PageRow {
            modules: vec![module("ALBUM_LIST")],
        },
        PageRow {
            modules: vec![module("TEXT_BLOCK"), module("MIX_LIST")],
        },
    ];
    let (_, effects) = state.update(explore::Message::Loaded(Ok(rows)));
    assert_eq!(state.modules.len(), 3);
    match &effects[..] {
        [ScreenEffect::ImagesNeeded(ids)] => assert_eq!(ids.len(), 3),
        _ => panic!("expected ImagesNeeded"),
    }
    let extra = vec![ExpandedItem {
        item: album_item(5, "c5"),
        raw: Json::Null,
    }];
    let _ = state.update(explore::Message::ViewAllLoaded(2, Ok(extra)));
    assert_eq!(state.modules[2].items.len(), 2);
}

#[test]
fn tab_bar_shows_only_with_two_tabs_or_more() {
    let tab = |name: &str| HomeTab {
        name: Some(name.to_string()),
        slug: Some(name.to_string()),
    };
    assert!(!home::shows_tab_bar(&vec![]));
    assert!(!home::shows_tab_bar(&vec![tab("static")]));
    assert!(home::shows_tab_bar(&vec![tab("static"), tab("music")]));
}

#[test]
fn shown_groups_follow_the_filter_and_skip_empty_kinds() {
    let r = results();
    assert_eq!(
        search::shown_groups(TypeFilter::All, &r),
        vec![TypeFilter::Albums, TypeFilter::Artists]
    );
    assert_eq!(search::shown_groups(TypeFilter::Artists, &r), vec![TypeFilter::Artists]);
    assert!(search::shown_groups(TypeFilter::Tracks, &r).is_empty());
}
