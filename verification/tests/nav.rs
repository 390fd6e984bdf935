use streamboat_desktop::nav::{ContentLink, EntityRef, Nav, NavTarget, Screen};
use streamboat_desktop::shell::{apply_nav, handle_shortcut, window_title, NavAction, Shortcut};
use streamboat_desktop::proto::Command;

#[test]
fn go_to_pushes_history_and_clears_forward() {
    let mut nav = Nav::new(Screen::Home);
    nav.go_to(Screen::Explore);
    nav.go_to(Screen::Search);
    assert_eq!(nav.current(), &Screen::Search);
    assert!(nav.can_go_back());
    assert!(!nav.can_go_forward());
}

#[test]
fn back_then_forward_round_trips() {
    let mut nav = Nav::new(Screen::Home);
    nav.go_to(Screen::Explore);
    nav.go_to(Screen::Search);

    assert!(nav.back());
    assert_eq!(nav.current(), &Screen::Explore);
    assert!(nav.can_go_forward());

    assert!(nav.back());
    assert_eq!(nav.current(), &Screen::Home);
    assert!(!nav.can_go_back());

    assert!(nav.forward());
    assert_eq!(nav.current(), &Screen::Explore);
    assert!(nav.forward());
    assert_eq!(nav.current(), &Screen::Search);
    assert!(!nav.can_go_forward());
}

#[test]
fn back_on_empty_history_is_a_no_op() {
    let mut nav = Nav::new(Screen::Home);
    assert!(!nav.back());
    assert_eq!(nav.current(), &Screen::Home);
}

#[test]
fn navigating_after_back_drops_the_old_forward_branch() {
    let mut nav = Nav::new(Screen::Home);
    nav.go_to(Screen::Explore);
    nav.go_to(Screen::Search);
    assert!(nav.back());
    nav.go_to(Screen::Settings);
    assert!(!nav.can_go_forward());
    assert!(nav.back());
    assert_eq!(nav.current(), &Screen::Explore);
}

#[test]
fn go_to_same_screen_is_a_no_op() {
    let mut nav = Nav::new(Screen::Home);
    nav.go_to(Screen::Home);
    assert!(!nav.can_go_back());
}

#[test]
fn entity_labels_render_id_by_kind() {
    assert_eq!(EntityRef::Album(42).id_label(), "42");
    assert_eq!(EntityRef::Playlist("abc-123".into()).id_label(), "abc-123");
    assert_eq!(EntityRef::Artist(7).kind_label(), "Artist");
    assert_eq!(EntityRef::Video(9).kind_label(), "Video");
}

#[test]
fn content_link_maps_onto_the_matching_entity_screen() {
    assert_eq!(
        Screen::from_content_link(ContentLink::Track(1)),
        Screen::Entity(EntityRef::Track(1))
    );
    assert_eq!(
        Screen::from_content_link(ContentLink::Playlist("abc".into())),
        Screen::Entity(EntityRef::Playlist("abc".into()))
    );
    assert_eq!(
        Screen::from_content_link(ContentLink::Video(3)),
        Screen::Entity(EntityRef::Video(3))
    );
}

#[test]
fn folder_link_falls_back_to_collection() {
    assert_eq!(
        Screen::from_content_link(ContentLink::Folder("f-1".into())),
        Screen::Collection
    );
}

#[test]
fn album_track_link_opens_the_track() {
    assert_eq!(
        Screen::from_content_link(ContentLink::AlbumTrack {
            album_id: 10,
            track_id: 20
        }),
        Screen::Entity(EntityRef::Track(20))
    );
}

#[test]
fn replace_swaps_the_current_screen_without_history() {
    let mut nav = Nav::new(Screen::Login);
    nav.replace(Screen::Home);
    assert_eq!(nav.current(), &Screen::Home);
    assert!(!nav.can_go_back());
    assert!(!nav.can_go_forward());
}

#[test]
fn go_to_then_back_returns_to_the_previous_screen() {
    let mut nav = Nav::new(Screen::Home);
    nav.go_to(Screen::Entity(EntityRef::Mix("m1".into())));
    assert!(nav.back());
    assert_eq!(nav.current(), &Screen::Home);
    assert!(nav.can_go_forward());
}

#[test]
fn screen_titles_name_the_screen() {
    assert_eq!(Screen::Home.title(), "Home");
    assert_eq!(Screen::Collection.title(), "My Collection");
    assert_eq!(Screen::Entity(EntityRef::Album(5)).title(), "Album 5");
    assert_eq!(Screen::Lyrics(12).title(), "Lyrics — track 12");
}

#[test]
fn window_title_carries_the_current_screen() {
    let mut nav = Nav::new(Screen::Home);
    nav.go_to(Screen::Search);
    assert_eq!(window_title(&nav), "streamboat — Search");
}

#[test]
fn navigation_is_ignored_before_sign_in() {
    let mut nav = Nav::new(Screen::Login);
    apply_nav(false, &mut nav, NavAction::Go(NavTarget::Home));
    assert_eq!(nav.current(), &Screen::Login);
    assert!(handle_shortcut(false, &mut nav, Shortcut::FocusSearch).is_none());
    assert_eq!(nav.current(), &Screen::Login);
}

#[test]
fn sidebar_and_history_buttons_move_the_stack_once_signed_in() {
    let mut nav = Nav::new(Screen::Home);
    apply_nav(true, &mut nav, NavAction::Go(NavTarget::Collection));
    assert_eq!(nav.current(), &Screen::Collection);
    apply_nav(true, &mut nav, NavAction::Back);
    assert_eq!(nav.current(), &Screen::Home);
    apply_nav(true, &mut nav, NavAction::Forward);
    assert_eq!(nav.current(), &Screen::Collection);
}

#[test]
fn shortcuts_play_pause_search_and_back() {
    let mut nav = Nav::new(Screen::Home);
    assert!(matches!(
        handle_shortcut(true, &mut nav, Shortcut::TogglePlayPause),
        Some(Command::TogglePlayPause)
    ));
    assert!(handle_shortcut(true, &mut nav, Shortcut::FocusSearch).is_none());
    assert_eq!(nav.current(), &Screen::Search);
    assert!(handle_shortcut(true, &mut nav, Shortcut::Back).is_none());
    assert_eq!(nav.current(), &Screen::Home);
}
