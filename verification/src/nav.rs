//! The navigation stack: every screen the shell can show, the entity each
//! entity page carries, the mapping from a parsed deep link to the screen it
//! opens, and back/forward history over screens.
use vstd::prelude::*;
use vstd::std_specs::cmp::PartialEqSpecImpl;
use vstd::std_specs::convert::FromSpecImpl;

use crate::text::{decimal, decimal_string, owned, same_text};

verus! {

/// One entity an entity page renders.
#[derive(Debug, Clone)]
pub enum EntityRef {
    Album(u64),
    Artist(u64),
    Track(u64),
    Playlist(String),
    Mix(String),
    /// Metadata only: video playback is not supported.
    Video(u64),
}

/// The mathematical value of an [`EntityRef`]: string ids by their characters.
pub enum EntityView {
    Album(u64),
    Artist(u64),
    Track(u64),
    Playlist(Seq<char>),
    Mix(Seq<char>),
    Video(u64),
}

impl View for EntityRef {
    type V = EntityView;

    open spec fn view(&self) -> EntityView {
        match self {
            EntityRef::Album(id) => EntityView::Album(*id),
            EntityRef::Artist(id) => EntityView::Artist(*id),
            EntityRef::Track(id) => EntityView::Track(*id),
            EntityRef::Playlist(id) => EntityView::Playlist(id@),
            EntityRef::Mix(id) => EntityView::Mix(id@),
            EntityRef::Video(id) => EntityView::Video(*id),
        }
    }
}

/// The label naming an entity's kind.
pub open spec fn kind_text(e: EntityView) -> Seq<char> {
    match e {
        EntityView::Album(_) => "Album"@,
        EntityView::Artist(_) => "Artist"@,
        EntityView::Track(_) => "Track"@,
        EntityView::Playlist(_) => "Playlist"@,
        EntityView::Mix(_) => "Mix"@,
        EntityView::Video(_) => "Video"@,
    }
}

/// The entity's id as text: decimal for numeric ids, verbatim otherwise.
pub open spec fn id_text(e: EntityView) -> Seq<char> {
    match e {
        EntityView::Album(id) => decimal(id as nat),
        EntityView::Artist(id) => decimal(id as nat),
        EntityView::Track(id) => decimal(id as nat),
        EntityView::Video(id) => decimal(id as nat),
        EntityView::Playlist(id) => id,
        EntityView::Mix(id) => id,
    }
}

impl EntityRef {
    pub fn kind_label(&self) -> (r: &'static str)
        ensures
            r@ == kind_text(self@),
    {
        match self {
            EntityRef::Album(_) => "Album",
            EntityRef::Artist(_) => "Artist",
            EntityRef::Track(_) => "Track",
            EntityRef::Playlist(_) => "Playlist",
            EntityRef::Mix(_) => "Mix",
            EntityRef::Video(_) => "Video",
        }
    }

    pub fn id_label(&self) -> (r: String)
        ensures
            r@ == id_text(self@),
    {
        match self {
            EntityRef::Album(id) => decimal_string(*id),
            EntityRef::Track(id) => decimal_string(*id),
            EntityRef::Artist(id) => decimal_string(*id),
            EntityRef::Video(id) => decimal_string(*id),
            EntityRef::Playlist(id) => id.clone(),
            EntityRef::Mix(id) => id.clone(),
        }
    }

    /// Whether two entity references name the same entity.
    pub fn same_as(&self, other: &EntityRef) -> (r: bool)
        ensures
            r == (self@ == other@),
    {
        match (self, other) {
            (EntityRef::Album(a), EntityRef::Album(b)) => *a == *b,
            (EntityRef::Artist(a), EntityRef::Artist(b)) => *a == *b,
            (EntityRef::Track(a), EntityRef::Track(b)) => *a == *b,
            (EntityRef::Video(a), EntityRef::Video(b)) => *a == *b,
            (EntityRef::Playlist(a), EntityRef::Playlist(b)) => same_text(a.as_str(), b.as_str()),
            (EntityRef::Mix(a), EntityRef::Mix(b)) => same_text(a.as_str(), b.as_str()),
            _ => false,
        }
    }
}

impl PartialEq for EntityRef {
    fn eq(&self, other: &Self) -> (r: bool) {
        self.same_as(other)
    }
}

impl PartialEqSpecImpl for EntityRef {
    open spec fn obeys_eq_spec() -> bool {
        true
    }

    open spec fn eq_spec(&self, other: &Self) -> bool {
        self@ == other@
    }
}

impl Eq for EntityRef {

}

/// Every reachable screen. Login is reachable only before sign-in.
#[derive(Debug, Clone)]
pub enum Screen {
    Login,
    Home,
    Explore,
    Search,
    NowPlaying,
    Settings,
    /// Album/artist/playlist/mix/track/video pages, with the entity's id.
    Entity(EntityRef),
    /// My Collection: favourites, playlists and folders.
    Collection,
    /// Full-screen synced lyrics for a track.
    Lyrics(u64),
}

pub enum ScreenView {
    Login,
    Home,
    Explore,
    Search,
    NowPlaying,
    Settings,
    Entity(EntityView),
    Collection,
    Lyrics(u64),
}

impl View for Screen {
    type V = ScreenView;

    open spec fn view(&self) -> ScreenView {
        match self {
            Screen::Login => ScreenView::Login,
            Screen::Home => ScreenView::Home,
            Screen::Explore => ScreenView::Explore,
            Screen::Search => ScreenView::Search,
            Screen::NowPlaying => ScreenView::NowPlaying,
            Screen::Settings => ScreenView::Settings,
            Screen::Entity(e) => ScreenView::Entity(e@),
            Screen::Collection => ScreenView::Collection,
            Screen::Lyrics(id) => ScreenView::Lyrics(*id),
        }
    }
}

/// The window title text for a screen.
pub open spec fn title_text(s: ScreenView) -> Seq<char> {
    match s {
        ScreenView::Login => "Log in"@,
        ScreenView::Home => "Home"@,
        ScreenView::Explore => "Explore"@,
        ScreenView::Search => "Search"@,
        ScreenView::NowPlaying => "Now Playing"@,
        ScreenView::Settings => "Settings"@,
        ScreenView::Entity(e) => kind_text(e) + seq![' '] + id_text(e),
        ScreenView::Collection => "My Collection"@,
        ScreenView::Lyrics(id) => "Lyrics — track "@ + decimal(id as nat),
    }
}

/// A deep link, already parsed: which entity (or folder) it points at.
#[derive(Debug, Clone)]
pub enum ContentLink {
    Track(u64),
    Album(u64),
    Artist(u64),
    Video(u64),
    Playlist(String),
    Mix(String),
    Folder(String),
    AlbumTrack { album_id: u64, track_id: u64 },
}

/// The screen a deep link opens; a folder link opens My Collection.
pub open spec fn link_screen(link: ContentLink) -> ScreenView {
    match link {
        ContentLink::Track(id) => ScreenView::Entity(EntityView::Track(id)),
        ContentLink::Album(id) => ScreenView::Entity(EntityView::Album(id)),
        ContentLink::Artist(id) => ScreenView::Entity(EntityView::Artist(id)),
        ContentLink::Video(id) => ScreenView::Entity(EntityView::Video(id)),
        ContentLink::Playlist(uuid) => ScreenView::Entity(EntityView::Playlist(uuid@)),
        ContentLink::Mix(id) => ScreenView::Entity(EntityView::Mix(id@)),
        ContentLink::Folder(_) => ScreenView::Collection,
        ContentLink::AlbumTrack { track_id, .. } => ScreenView::Entity(EntityView::Track(track_id)),
    }
}

impl Screen {
    pub fn title(&self) -> (r: String)
        ensures
            r@ == title_text(self@),
    {
        match self {
            Screen::Login => owned("Log in"),
            Screen::Home => owned("Home"),
            Screen::Explore => owned("Explore"),
            Screen::Search => owned("Search"),
            Screen::NowPlaying => owned("Now Playing"),
            Screen::Settings => owned("Settings"),
            Screen::Entity(e) => {
                let mut s = owned(e.kind_label());
                s.append(" ");
                let id = e.id_label();
                s.append(id.as_str());
                proof {
                    reveal_strlit(" ");
                    assert(" "@ =~= seq![' ']);
                }
                s
            },
            Screen::Collection => owned("My Collection"),
            Screen::Lyrics(id) => {
                let mut s = owned("Lyrics — track ");
                let n = decimal_string(*id);
                s.append(n.as_str());
                s
            },
        }
    }

    /// A parsed deep link, turned into the screen it opens. Always resolves
    /// to some screen.
    pub fn from_content_link(link: ContentLink) -> (r: Screen)
        ensures
            r@ == link_screen(link),
    {
        match link {
            ContentLink::Track(id) => Screen::Entity(EntityRef::Track(id)),
            ContentLink::Album(id) => Screen::Entity(EntityRef::Album(id)),
            ContentLink::Artist(id) => Screen::Entity(EntityRef::Artist(id)),
            ContentLink::Video(id) => Screen::Entity(EntityRef::Video(id)),
            ContentLink::Playlist(uuid) => Screen::Entity(EntityRef::Playlist(uuid)),
            ContentLink::Mix(id) => Screen::Entity(EntityRef::Mix(id)),
            ContentLink::Folder(_) => Screen::Collection,
            ContentLink::AlbumTrack { track_id, .. } => Screen::Entity(EntityRef::Track(track_id)),
        }
    }

    /// Whether two screens are the same screen (same entity, same track).
    pub fn same_as(&self, other: &Screen) -> (r: bool)
        ensures
            r == (self@ == other@),
    {
        match (self, other) {
            (Screen::Login, Screen::Login) => true,
            (Screen::Home, Screen::Home) => true,
            (Screen::Explore, Screen::Explore) => true,
            (Screen::Search, Screen::Search) => true,
            (Screen::NowPlaying, Screen::NowPlaying) => true,
            (Screen::Settings, Screen::Settings) => true,
            (Screen::Collection, Screen::Collection) => true,
            (Screen::Entity(a), Screen::Entity(b)) => a.same_as(b),
            (Screen::Lyrics(a), Screen::Lyrics(b)) => *a == *b,
            _ => false,
        }
    }
}

impl PartialEq for Screen {
    fn eq(&self, other: &Self) -> (r: bool) {
        self.same_as(other)
    }
}

impl PartialEqSpecImpl for Screen {
    open spec fn obeys_eq_spec() -> bool {
        true
    }

    open spec fn eq_spec(&self, other: &Self) -> bool {
        self@ == other@
    }
}

impl Eq for Screen {

}

/// The sidebar's fixed entries: the screens that carry no payload.
#[derive(Debug, Clone, Copy, PartialEq, Eq)]
pub enum NavTarget {
    Home,
    Explore,
    Search,
    NowPlaying,
    Collection,
    Settings,
}

pub open spec fn target_screen(t: NavTarget) -> ScreenView {
    match t {
        NavTarget::Home => ScreenView::Home,
        NavTarget::Explore => ScreenView::Explore,
        NavTarget::Search => ScreenView::Search,
        NavTarget::NowPlaying => ScreenView::NowPlaying,
        NavTarget::Collection => ScreenView::Collection,
        NavTarget::Settings => ScreenView::Settings,
    }
}

pub open spec fn target_screen_value(t: NavTarget) -> Screen {
    match t {
        NavTarget::Home => Screen::Home,
        NavTarget::Explore => Screen::Explore,
        NavTarget::Search => Screen::Search,
        NavTarget::NowPlaying => Screen::NowPlaying,
        NavTarget::Collection => Screen::Collection,
        NavTarget::Settings => Screen::Settings,
    }
}

impl From<NavTarget> for Screen {
    fn from(target: NavTarget) -> (r: Screen) {
        match target {
            NavTarget::Home => Screen::Home,
            NavTarget::Explore => Screen::Explore,
            NavTarget::Search => Screen::Search,
            NavTarget::NowPlaying => Screen::NowPlaying,
            NavTarget::Collection => Screen::Collection,
            NavTarget::Settings => Screen::Settings,
        }
    }
}

impl FromSpecImpl<NavTarget> for Screen {
    open spec fn obeys_from_spec() -> bool {
        true
    }

    open spec fn from_spec(v: NavTarget) -> Screen {
        target_screen_value(v)
    }
}

/// A screen for a sidebar entry.
pub fn target_to_screen(target: NavTarget) -> (r: Screen)
    ensures
        r@ == target_screen(target),
{
    Screen::from(target)
}

// ---------------------------------------------------------------------------
// History.

/// What a navigation stack is: the screen shown, the screens behind it
/// (most recent last) and the screens ahead of it (nearest last).
pub struct NavView {
    pub current: ScreenView,
    pub back: Seq<ScreenView>,
    pub forward: Seq<ScreenView>,
}

/// Navigating to `s`: a no-op when already there; otherwise the current
/// screen joins the back history and the forward history is dropped.
pub open spec fn go_to_spec(v: NavView, s: ScreenView) -> NavView {
    if s == v.current {
        v
    } else {
        NavView { current: s, back: v.back.push(v.current), forward: Seq::empty() }
    }
}

/// Going back: `(moved, after)`.
pub open spec fn back_spec(v: NavView) -> (bool, NavView) {
    if v.back.len() == 0 {
        (false, v)
    } else {
        (
            true,
            NavView {
                current: v.back.last(),
                back: v.back.drop_last(),
                forward: v.forward.push(v.current),
            },
        )
    }
}

/// Going forward: `(moved, after)`.
pub open spec fn forward_spec(v: NavView) -> (bool, NavView) {
    if v.forward.len() == 0 {
        (false, v)
    } else {
        (
            true,
            NavView {
                current: v.forward.last(),
                back: v.back.push(v.current),
                forward: v.forward.drop_last(),
            },
        )
    }
}

/// Back/forward navigation over [`Screen`]s.
#[derive(Debug, Clone)]
pub struct Nav {
    current: Screen,
    back: Vec<Screen>,
    forward: Vec<Screen>,
}

pub open spec fn screens_view(v: Seq<Screen>) -> Seq<ScreenView> {
    v.map_values(|s: Screen| s@)
}

impl View for Nav {
    type V = NavView;

    closed spec fn view(&self) -> NavView {
        NavView {
            current: self.current@,
            back: screens_view(self.back@),
            forward: screens_view(self.forward@),
        }
    }
}

impl Nav {
    pub fn new(start: Screen) -> (r: Nav)
        ensures
            r@ == (NavView { current: start@, back: Seq::empty(), forward: Seq::empty() }),
    {
        let r = Nav { current: start, back: Vec::new(), forward: Vec::new() };
        assert(screens_view(r.back@) =~= Seq::<ScreenView>::empty());
        assert(screens_view(r.forward@) =~= Seq::<ScreenView>::empty());
        r
    }

    pub fn current(&self) -> (r: &Screen)
        ensures
            r@ == self@.current,
    {
        &self.current
    }

    pub fn can_go_back(&self) -> (r: bool)
        ensures
            r == (self@.back.len() > 0),
    {
        self.back.len() > 0
    }

    pub fn can_go_forward(&self) -> (r: bool)
        ensures
            r == (self@.forward.len() > 0),
    {
        self.forward.len() > 0
    }

    /// Navigate to `screen`, pushing the current screen onto the back stack
    /// and clearing the forward stack; a no-op if already there.
    pub fn go_to(&mut self, screen: Screen)
        ensures
            final(self)@ == go_to_spec(old(self)@, screen@),
    {
        if screen.same_as(&self.current) {
            return;
        }
        self.forward.clear();
        let mut previous = screen;
        std::mem::swap(&mut self.current, &mut previous);
        self.back.push(previous);
        assert(screens_view(self.back@) =~= screens_view(old(self).back@).push(
            old(self).current@,
        ));
        assert(screens_view(self.forward@) =~= Seq::<ScreenView>::empty());
    }

    /// Replace the current screen without touching either stack.
    pub fn replace(&mut self, screen: Screen)
        ensures
            final(self)@ == (NavView { current: screen@, ..old(self)@ }),
    {
        self.current = screen;
    }

    pub fn back(&mut self) -> (moved: bool)
        ensures
            (moved, final(self)@) == back_spec(old(self)@),
    {
        match self.back.pop() {
            None => false,
            Some(previous) => {
                let mut shown = previous;
                std::mem::swap(&mut self.current, &mut shown);
                self.forward.push(shown);
                assert(screens_view(self.back@) =~= screens_view(old(self).back@).drop_last());
                assert(screens_view(self.forward@) =~= screens_view(old(self).forward@).push(
                    old(self).current@,
                ));
                true
            },
        }
    }

    pub fn forward(&mut self) -> (moved: bool)
        ensures
            (moved, final(self)@) == forward_spec(old(self)@),
    {
        match self.forward.pop() {
            None => false,
            Some(next) => {
                let mut shown = next;
                std::mem::swap(&mut self.current, &mut shown);
                self.back.push(shown);
                assert(screens_view(self.forward@) =~= screens_view(old(self).forward@).drop_last());
                assert(screens_view(self.back@) =~= screens_view(old(self).back@).push(
                    old(self).current@,
                ));
                true
            },
        }
    }
}

/// Going back and then forward again returns to exactly where navigation
/// started, whenever going back was possible.
pub proof fn law_back_then_forward(v: NavView)
    requires
        v.back.len() > 0,
    ensures
        back_spec(v).0,
        forward_spec(back_spec(v).1) == (true, v),
{
    let after = back_spec(v).1;
    assert(after.forward.drop_last() =~= v.forward);
    assert(after.back.push(after.current) =~= v.back);
}

/// Going forward and then back again returns to where navigation started,
/// whenever going forward was possible.
pub proof fn law_forward_then_back(v: NavView)
    requires
        v.forward.len() > 0,
    ensures
        forward_spec(v).0,
        back_spec(forward_spec(v).1) == (true, v),
{
    let after = forward_spec(v).1;
    assert(after.back.drop_last() =~= v.back);
    assert(after.forward.push(after.current) =~= v.forward);
}

/// Navigating somewhere new and then going back shows the previous screen
/// again, with the new screen the only one ahead.
pub proof fn law_go_to_then_back(v: NavView, s: ScreenView)
    requires
        s != v.current,
    ensures
        back_spec(go_to_spec(v, s)) == (
            true,
            NavView { current: v.current, back: v.back, forward: seq![s] },
        ),
{
    let g = go_to_spec(v, s);
    assert(g.back.drop_last() =~= v.back);
    assert(Seq::<ScreenView>::empty().push(s) =~= seq![s]);
}

/// Navigating anywhere leaves nothing to go forward to.
pub proof fn law_go_to_clears_forward(v: NavView, s: ScreenView)
    requires
        s != v.current,
    ensures
        go_to_spec(v, s).forward.len() == 0,
        go_to_spec(v, s).back.len() == v.back.len() + 1,
        go_to_spec(v, s).current == s,
{
}

/// Going back with no history moves nothing and changes nothing.
pub proof fn law_back_on_empty_history(v: NavView)
    requires
        v.back.len() == 0,
    ensures
        back_spec(v) == (false, v),
{
}

/// A deep link opens the page of exactly the entity it names: the same
/// kind and the same id (a link to a track on an album opens that track);
/// only a folder link, which has no page of its own, opens My Collection.
pub proof fn law_link_opens_the_named_entity(n: u64, album_id: u64, s: String)
    ensures
        link_screen(ContentLink::Album(n)) == ScreenView::Entity(EntityView::Album(n)),
        link_screen(ContentLink::Artist(n)) == ScreenView::Entity(EntityView::Artist(n)),
        link_screen(ContentLink::Track(n)) == ScreenView::Entity(EntityView::Track(n)),
        link_screen(ContentLink::Video(n)) == ScreenView::Entity(EntityView::Video(n)),
        link_screen(ContentLink::Playlist(s)) == ScreenView::Entity(EntityView::Playlist(s@)),
        link_screen(ContentLink::Mix(s)) == ScreenView::Entity(EntityView::Mix(s@)),
        link_screen(ContentLink::AlbumTrack { album_id, track_id: n }) == ScreenView::Entity(
            EntityView::Track(n),
        ),
        link_screen(ContentLink::Folder(s)) == ScreenView::Collection,
        forall|link: ContentLink|
            (#[trigger] link_screen(link)) is Entity || link is Folder,
{
}

} // verus!
