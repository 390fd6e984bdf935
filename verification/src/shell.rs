//! The top-level shell's decisions: navigation (only once signed in), the
//! keyboard shortcuts, what the Now Playing screen and the playback bar
//! send to the player, where search results lead, the seek bar's numbers,
//! the window title, and which artwork still has to be fetched.
use vstd::prelude::*;

use crate::actions::ScreenEffect;
use crate::images::{has_key, ImageCache};
use crate::nav::{
    back_spec, forward_spec, go_to_spec, target_screen, target_to_screen, title_text, Nav,
    NavTarget, NavView, Screen, ScreenView,
};
use crate::proto::Command;
use crate::snapcast::PlaybackStatus;
use crate::text::{owned, push_str, string_from_chars};

verus! {

/// How many artworks the image cache holds.
pub const IMAGE_CACHE_CAPACITY: usize = 512;

/// A sidebar or history button press.
#[derive(Debug, Clone, Copy, PartialEq, Eq)]
pub enum NavAction {
    Go(NavTarget),
    Back,
    Forward,
}

/// A keyboard shortcut: space, ctrl+f, escape.
#[derive(Debug, Clone, Copy, PartialEq, Eq)]
pub enum Shortcut {
    TogglePlayPause,
    FocusSearch,
    Back,
}

/// The navigation stack after `action`, once signed in.
pub open spec fn nav_after(v: NavView, action: NavAction) -> NavView {
    match action {
        NavAction::Go(t) => go_to_spec(v, target_screen(t)),
        NavAction::Back => back_spec(v).1,
        NavAction::Forward => forward_spec(v).1,
    }
}

/// Applies a navigation action; before sign-in nothing moves.
pub fn apply_nav(logged_in: bool, nav: &mut Nav, action: NavAction)
    ensures
        final(nav)@ == if logged_in {
            nav_after(old(nav)@, action)
        } else {
            old(nav)@
        },
{
    if !logged_in {
        return;
    }
    match action {
        NavAction::Go(target) => nav.go_to(target_to_screen(target)),
        NavAction::Back => {
            let _ = nav.back();
        },
        NavAction::Forward => {
            let _ = nav.forward();
        },
    }
}

/// Handles a shortcut: play/pause goes to the player, ctrl+f opens Search,
/// escape goes back; before sign-in shortcuts do nothing.
pub fn handle_shortcut(logged_in: bool, nav: &mut Nav, shortcut: Shortcut) -> (r: Option<Command>)
    ensures
        !logged_in ==> final(nav)@ == old(nav)@ && r is None,
        logged_in ==> match shortcut {
            Shortcut::TogglePlayPause => final(nav)@ == old(nav)@ && (r matches Some(
                Command::TogglePlayPause,
            )),
            Shortcut::FocusSearch => final(nav)@ == go_to_spec(old(nav)@, ScreenView::Search)
                && r is None,
            Shortcut::Back => final(nav)@ == back_spec(old(nav)@).1 && r is None,
        },
{
    if !logged_in {
        return None;
    }
    match shortcut {
        Shortcut::TogglePlayPause => Some(Command::TogglePlayPause),
        Shortcut::FocusSearch => {
            nav.go_to(Screen::Search);
            None
        },
        Shortcut::Back => {
            let _ = nav.back();
            None
        },
    }
}

/// What the Now Playing screen asks for.
#[derive(Debug, Clone, Copy, PartialEq, Eq)]
pub enum NowPlayingMessage {
    /// The seek slider moved, in milliseconds.
    SeekChanged(u32),
    SeekReleased,
    MoveUp(usize),
    MoveDown(usize),
    Remove(usize),
    OpenLyrics(u64),
}

/// A queue row's buttons, and whether the row is the track now playing.
#[derive(Debug, Clone, Copy, PartialEq, Eq)]
pub struct QueueRow {
    pub is_current: bool,
    pub move_up: bool,
    pub move_down: bool,
    /// The track now playing cannot be removed from the queue.
    pub remove: bool,
}

/// The row at `index` of a queue of `len` tracks, while the track at
/// `current` (if any) is playing.
pub fn queue_row(index: usize, len: usize, current: Option<usize>) -> (r: QueueRow)
    ensures
        r.is_current == (current == Some(index)),
        r.move_up == (index > 0),
        r.move_down == (index + 1 < len),
        r.remove == (current != Some(index)),
{
    let is_current = match current {
        Some(c) => c == index,
        None => false,
    };
    QueueRow {
        is_current,
        move_up: index > 0,
        move_down: index < len && index + 1 < len,
        remove: !is_current,
    }
}

/// Handles a Now Playing message: slider moves only update the shown
/// position, a release seeks there; queue edits become player commands.
pub fn now_playing_update(message: NowPlayingMessage, position_ms: &mut u64, nav: &mut Nav) -> (r:
    Option<Command>)
    requires
        message matches NowPlayingMessage::MoveDown(i) ==> i < usize::MAX,
    ensures
        match message {
            NowPlayingMessage::SeekChanged(ms) => *final(position_ms) == ms && final(nav)@ == old(nav)@ && r is None,
            NowPlayingMessage::SeekReleased => *final(position_ms) == *old(position_ms)
                && final(nav)@ == old(nav)@ && (r matches Some(Command::Seek { position_ms: p })
                && p == *old(position_ms)),
            NowPlayingMessage::MoveUp(i) => *final(position_ms) == *old(position_ms) && final(nav)@ == old(nav)@ && if i > 0 {
                r matches Some(Command::MoveQueueItem { from, to }) && from == i && to == i - 1
            } else {
                r is None
            },
            NowPlayingMessage::MoveDown(i) => *final(position_ms) == *old(position_ms) && final(nav)@ == old(nav)@ && (r matches Some(Command::MoveQueueItem { from, to }) && from == i
                && to == i + 1),
            NowPlayingMessage::Remove(i) => *final(position_ms) == *old(position_ms) && final(nav)@ == old(nav)@ && (r matches Some(Command::RemoveQueueItem { index }) && index == i),
            NowPlayingMessage::OpenLyrics(id) => *final(position_ms) == *old(position_ms) && final(nav)@ == go_to_spec(old(nav)@, ScreenView::Lyrics(id)) && r is None,
        },
{
    match message {
        NowPlayingMessage::SeekChanged(ms) => {
            *position_ms = ms as u64;
            None
        },
        NowPlayingMessage::SeekReleased => Some(Command::Seek { position_ms: *position_ms }),
        NowPlayingMessage::MoveUp(i) => {
            if i > 0 {
                Some(Command::MoveQueueItem { from: i, to: i - 1 })
            } else {
                None
            }
        },
        NowPlayingMessage::MoveDown(i) => Some(Command::MoveQueueItem { from: i, to: i + 1 }),
        NowPlayingMessage::Remove(i) => Some(Command::RemoveQueueItem { index: i }),
        NowPlayingMessage::OpenLyrics(id) => {
            nav.go_to(Screen::Lyrics(id));
            None
        },
    }
}

/// What the playback bar asks for, but for the volume slider (whose value
/// is a float, set outside when [`volume_adjustable`] allows it).
#[derive(Debug, Clone, Copy, PartialEq, Eq)]
pub enum BarMessage {
    PlayPause,
    Previous,
    Next,
    SeekChanged(u32),
    SeekReleased,
    ToggleQueue,
    ToggleSignalPath,
}

/// Volume follows the slider only on a shared output: an exclusive output
/// plays bit-perfect, at a fixed volume.
pub fn volume_adjustable(exclusive_output: bool) -> (r: bool)
    ensures
        r == !exclusive_output,
{
    !exclusive_output
}

/// Handles a playback bar message.
pub fn bar_update(
    message: BarMessage,
    position_ms: &mut u64,
    show_signal_path: &mut bool,
    nav: &mut Nav,
) -> (r: Option<Command>)
    ensures
        match message {
            BarMessage::PlayPause => r matches Some(Command::TogglePlayPause),
            BarMessage::Previous => r matches Some(Command::Previous),
            BarMessage::Next => r matches Some(Command::Next),
            BarMessage::SeekReleased => r matches Some(Command::Seek { position_ms: p }) && p
                == *old(position_ms),
            _ => r is None,
        },
        *final(position_ms) == match message {
            BarMessage::SeekChanged(ms) => ms as u64,
            _ => *old(position_ms),
        },
        *final(show_signal_path) == (*old(show_signal_path) != (message
            == BarMessage::ToggleSignalPath)),
        final(nav)@ == if message == BarMessage::ToggleQueue {
            go_to_spec(old(nav)@, ScreenView::NowPlaying)
        } else {
            old(nav)@
        },
{
    match message {
        BarMessage::PlayPause => Some(Command::TogglePlayPause),
        BarMessage::Previous => Some(Command::Previous),
        BarMessage::Next => Some(Command::Next),
        BarMessage::SeekChanged(ms) => {
            *position_ms = ms as u64;
            None
        },
        BarMessage::SeekReleased => Some(Command::Seek { position_ms: *position_ms }),
        BarMessage::ToggleQueue => {
            nav.go_to(Screen::NowPlaying);
            None
        },
        BarMessage::ToggleSignalPath => {
            *show_signal_path = !*show_signal_path;
            None
        },
    }
}

/// The seek bar's numbers: a track length of at least one millisecond, the
/// position held within it, what remains, and both as slider values
/// capped to 32 bits.
#[derive(Debug, Clone, Copy, PartialEq, Eq)]
pub struct SeekBar {
    pub position_ms: u64,
    pub duration_ms: u64,
    pub remaining_ms: u64,
    pub position_slider: u32,
    pub duration_slider: u32,
}

pub open spec fn seek_bar_spec(position_ms: u64, duration_ms: Option<u64>) -> SeekBar {
    let d: u64 = match duration_ms {
        Some(d) => if d == 0 {
            1
        } else {
            d
        },
        None => 1,
    };
    let p: u64 = if position_ms < d {
        position_ms
    } else {
        d
    };
    SeekBar {
        position_ms: p,
        duration_ms: d,
        remaining_ms: (d - p) as u64,
        position_slider: if p <= u32::MAX {
            p as u32
        } else {
            u32::MAX
        },
        duration_slider: if d <= u32::MAX {
            d as u32
        } else {
            u32::MAX
        },
    }
}

pub fn seek_bar(position_ms: u64, duration_ms: Option<u64>) -> (r: SeekBar)
    ensures
        r == seek_bar_spec(position_ms, duration_ms),
        r.position_ms <= r.duration_ms,
        r.position_ms + r.remaining_ms == r.duration_ms,
{
    let d: u64 = match duration_ms {
        Some(d) => if d == 0 {
            1
        } else {
            d
        },
        None => 1,
    };
    let p: u64 = if position_ms < d {
        position_ms
    } else {
        d
    };
    let ps: u32 = if p <= u32::MAX as u64 {
        p as u32
    } else {
        u32::MAX
    };
    let ds: u32 = if d <= u32::MAX as u64 {
        d as u32
    } else {
        u32::MAX
    };
    SeekBar {
        position_ms: p,
        duration_ms: d,
        remaining_ms: d - p,
        position_slider: ps,
        duration_slider: ds,
    }
}

/// The two text lines of the playback bar and the mini player: the current
/// track's title and artists, or a placeholder when nothing is playing.
pub fn track_lines(current: Option<(&str, &str)>) -> (r: (String, String))
    ensures
        match current {
            Some((title, artists)) => r.0@ == title@ && r.1@ == artists@,
            None => r.0@ == "Nothing playing"@ && r.1@ == "streamboat"@,
        },
{
    match current {
        Some((title, artists)) => (owned(title), owned(artists)),
        None => (owned("Nothing playing"), owned("streamboat")),
    }
}

/// The play/pause button's glyph: pause while playing, play otherwise.
pub fn play_pause_glyph(status: PlaybackStatus) -> (r: &'static str)
    ensures
        r@ == (if status == PlaybackStatus::Playing {
            "⏸"@
        } else {
            "▶"@
        }),
{
    match status {
        PlaybackStatus::Playing => "⏸",
        _ => "▶",
    }
}

/// One sidebar button: its label, where it leads, and whether its screen is
/// the one shown.
#[derive(Debug, Clone, PartialEq, Eq)]
pub struct SidebarEntry {
    pub label: String,
    pub target: NavTarget,
    pub active: bool,
}

/// The sidebar's buttons, top to bottom.
pub open spec fn sidebar_order() -> Seq<NavTarget> {
    seq![
        NavTarget::Home,
        NavTarget::Explore,
        NavTarget::Search,
        NavTarget::NowPlaying,
        NavTarget::Collection,
        NavTarget::Settings,
    ]
}

/// What a sidebar entry for `t` holds while `v` is the navigation state.
pub open spec fn entry_for(v: NavView, t: NavTarget, e: SidebarEntry) -> bool {
    &&& e.target == t
    &&& e.label@ == title_text(target_screen(t))
    &&& e.active == (v.current == target_screen(t))
}

fn sidebar_entry(nav: &Nav, target: NavTarget) -> (r: SidebarEntry)
    ensures
        entry_for(nav@, target, r),
{
    let screen = target_to_screen(target);
    let active = screen.same_as(nav.current());
    SidebarEntry { label: screen.title(), target, active }
}

/// The sidebar: one button per fixed screen, each named by that screen's
/// title and marked active when it is the screen shown.
pub fn sidebar_entries(nav: &Nav) -> (r: Vec<SidebarEntry>)
    ensures
        r@.len() == sidebar_order().len(),
        forall|i: int| 0 <= i < r@.len() ==> entry_for(nav@, sidebar_order()[i], #[trigger] r@[i]),
{
    let mut r: Vec<SidebarEntry> = Vec::new();
    r.push(sidebar_entry(nav, NavTarget::Home));
    r.push(sidebar_entry(nav, NavTarget::Explore));
    r.push(sidebar_entry(nav, NavTarget::Search));
    r.push(sidebar_entry(nav, NavTarget::NowPlaying));
    r.push(sidebar_entry(nav, NavTarget::Collection));
    r.push(sidebar_entry(nav, NavTarget::Settings));
    r
}

/// The window title: the app's name and the current screen's.
pub open spec fn window_title_text(v: NavView) -> Seq<char> {
    "streamboat — "@ + title_text(v.current)
}

pub fn window_title(nav: &Nav) -> (r: String)
    ensures
        r@ == window_title_text(nav@),
{
    let t = nav.current().title();
    let mut v: Vec<char> = Vec::new();
    push_str("streamboat — ", &mut v);
    push_str(t.as_str(), &mut v);
    string_from_chars(&v)
}

/// Where a search result's effect leads: playing a track replaces the
/// queue with it and opens Now Playing; queueing only queues; a click on an
/// entity opens its page; artwork is left to the image cache.
pub fn route_search_effect(effect: ScreenEffect, nav: &mut Nav) -> (r: Option<Command>)
    ensures
        match effect {
            ScreenEffect::PlayTrack(id) => final(nav)@ == go_to_spec(
                old(nav)@,
                ScreenView::NowPlaying,
            ) && (r matches Some(Command::Play { items }) && items@ == seq![id]),
            ScreenEffect::Enqueue(id, pos) => final(nav)@ == old(nav)@ && (r matches Some(
                Command::Enqueue { items, position },
            ) && items@ == seq![id] && position == pos),
            ScreenEffect::Navigate(e) => final(nav)@ == go_to_spec(
                old(nav)@,
                ScreenView::Entity(e@),
            ) && r is None,
            _ => final(nav)@ == old(nav)@ && r is None,
        },
{
    match effect {
        ScreenEffect::PlayTrack(id) => {
            let mut items: Vec<u64> = Vec::new();
            items.push(id);
            nav.go_to(Screen::NowPlaying);
            assert(items@ =~= seq![id]);
            Some(Command::Play { items })
        },
        ScreenEffect::Enqueue(id, position) => {
            let mut items: Vec<u64> = Vec::new();
            items.push(id);
            assert(items@ =~= seq![id]);
            Some(Command::Enqueue { items, position })
        },
        ScreenEffect::Navigate(entity) => {
            nav.go_to(Screen::Entity(entity));
            None
        },
        _ => None,
    }
}

/// The artwork URLs still to fetch, in order: every known URL the cache
/// does not hold yet (a cover id with no URL is skipped).
pub open spec fn to_fetch<H>(urls: Seq<Option<String>>, cache: Seq<(Seq<char>, H)>) -> Seq<
    Seq<char>,
>
    decreases urls.len(),
{
    if urls.len() == 0 {
        Seq::empty()
    } else {
        let rest = to_fetch(urls.drop_last(), cache);
        match urls.last() {
            Some(u) => if has_key(cache, u@) {
                rest
            } else {
                rest.push(u@)
            },
            None => rest,
        }
    }
}

pub fn images_to_fetch<H>(urls: &Vec<Option<String>>, cache: &ImageCache<H>) -> (r: Vec<String>)
    requires
        cache.wf(),
    ensures
        crate::favorites::strings_view(r@) == to_fetch(urls@, cache@.entries),
{
    let mut out: Vec<String> = Vec::new();
    let mut i: usize = 0;
    while i < urls.len()
        invariant
            i <= urls@.len(),
            cache.wf(),
            crate::favorites::strings_view(out@) == to_fetch(
                urls@.subrange(0, i as int),
                cache@.entries,
            ),
        decreases urls.len() - i,
    {
        let ghost before = out@;
        proof {
            let t = urls@.subrange(0, i + 1);
            assert(t.drop_last() =~= urls@.subrange(0, i as int));
            assert(t.last() == urls@[i as int]);
        }
        match &urls[i] {
            Some(u) => {
                if !cache.contains(u.as_str()) {
                    let c = u.clone();
                    out.push(c);
                    assert(crate::favorites::strings_view(out@) =~= crate::favorites::strings_view(
                        before,
                    ).push(c@));
                }
            },
            None => {},
        }
        i = i + 1;
    }
    assert(urls@.subrange(0, urls@.len() as int) =~= urls@);
    out
}

} // verus!
