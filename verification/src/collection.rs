//! My Collection: tabs for tracks / albums / artists / playlists / mixes,
//! per-list sort orders, paging with load-more, unfavourite from every
//! card and row, a "create playlist" dialog, and the playlists-and-folders
//! list. Every tab loads on its first visit rather than all five at once.
use vstd::prelude::*;

use crate::actions::{run_track_action, track_result_ok, ScreenEffect, TrackAction};
use crate::album::{err_text, one, only_images};
use crate::favorites::{image_ids, images_of, item_id_is_not, retain_other_ids, Item};
use crate::format::opt_chars;
use crate::json::{json_get, opt_text, Json};
use crate::nav::EntityRef;
use crate::text::{
    blank, chars_of, lemma_text_before_asymmetric, lemma_text_before_irreflexive,
    lemma_text_before_total, lemma_text_before_transitive, text_before, text_less, trim,
};

verus! {

#[derive(Debug, Clone, Copy, PartialEq, Eq)]
pub enum Tab {
    Tracks,
    Albums,
    Artists,
    Playlists,
    Mixes,
}

pub open spec fn tab_text(t: Tab) -> Seq<char> {
    match t {
        Tab::Tracks => "Tracks"@,
        Tab::Albums => "Albums"@,
        Tab::Artists => "Artists"@,
        Tab::Playlists => "Playlists"@,
        Tab::Mixes => "Mixes & Radio"@,
    }
}

impl Tab {
    /// Every tab, in display order.
    pub fn all() -> (r: [Tab; 5])
        ensures
            r@ == seq![Tab::Tracks, Tab::Albums, Tab::Artists, Tab::Playlists, Tab::Mixes],
    {
        [Tab::Tracks, Tab::Albums, Tab::Artists, Tab::Playlists, Tab::Mixes]
    }

    pub fn label(self) -> (r: &'static str)
        ensures
            r@ == tab_text(self),
    {
        match self {
            Tab::Tracks => "Tracks",
            Tab::Albums => "Albums",
            Tab::Artists => "Artists",
            Tab::Playlists => "Playlists",
            Tab::Mixes => "Mixes & Radio",
        }
    }
}

/// Sort orders of the favourite tracks list.
#[derive(Debug, Clone, Copy, PartialEq, Eq)]
pub enum ItemOrder {
    Date,
    Name,
    Artist,
    Album,
    Length,
    Index,
}

/// Sort orders of the favourite albums list.
#[derive(Debug, Clone, Copy, PartialEq, Eq)]
pub enum AlbumOrder {
    Date,
    Name,
    Artist,
    ReleaseDate,
}

/// Sort orders of the followed artists list.
#[derive(Debug, Clone, Copy, PartialEq, Eq)]
pub enum ArtistOrder {
    Date,
    Name,
}

/// Sort orders of the favourite mixes list.
#[derive(Debug, Clone, Copy, PartialEq, Eq)]
pub enum MixOrder {
    Date,
    Name,
    MixType,
}

/// One server-paged favourites list: what has been fetched, where the next
/// page starts, whether there is one, whether a fetch is in flight, and the
/// order it is fetched in.
pub struct Paged<T, O> {
    pub items: Vec<T>,
    pub offset: u32,
    pub has_more: bool,
    pub loading: bool,
    pub order: O,
}

pub struct PagedView<T, O> {
    pub items: Seq<T>,
    pub offset: u32,
    pub has_more: bool,
    pub loading: bool,
    pub order: O,
}

impl<T, O> View for Paged<T, O> {
    type V = PagedView<T, O>;

    open spec fn view(&self) -> PagedView<T, O> {
        PagedView {
            items: self.items@,
            offset: self.offset,
            has_more: self.has_more,
            loading: self.loading,
            order: self.order,
        }
    }
}

/// The list after a page of `items` arrived.
pub open spec fn page_arrived<T, O>(old: PagedView<T, O>, items: Seq<T>, more: bool) -> PagedView<
    T,
    O,
> {
    PagedView {
        items: old.items + items,
        offset: (old.offset + items.len()) as u32,
        has_more: more,
        loading: false,
        ..old
    }
}

/// The list after its order changed: emptied and refetched from the start.
pub open spec fn reordered<T, O>(old: PagedView<T, O>, order: O) -> PagedView<T, O> {
    PagedView { items: Seq::empty(), offset: 0, loading: true, order, ..old }
}

/// Until an item is removed from a list, its next page starts right after
/// the items it shows: a page arriving and a change of order both keep the
/// offset equal to the number of items.
pub proof fn law_offset_follows_items<T, O>(
    p: PagedView<T, O>,
    items: Seq<T>,
    more: bool,
    order: O,
)
    requires
        p.offset == p.items.len(),
        p.offset + items.len() <= u32::MAX,
    ensures
        page_arrived(p, items, more).offset == page_arrived(p, items, more).items.len(),
        reordered(p, order).offset == reordered(p, order).items.len(),
{
}

impl<T, O: Copy> Paged<T, O> {
    pub fn new(order: O, loading: bool) -> (r: Paged<T, O>)
        ensures
            r@ == (PagedView::<T, O> {
                items: Seq::empty(),
                offset: 0,
                has_more: false,
                loading,
                order,
            }),
    {
        Paged { items: Vec::new(), offset: 0, has_more: false, loading, order }
    }

    /// A page arrived: append it and move the next offset past it.
    pub fn arrived(&mut self, items: Vec<T>, more: bool)
        requires
            old(self).offset + items@.len() <= u32::MAX,
        ensures
            final(self)@ == page_arrived(old(self)@, items@, more),
    {
        let n = items.len() as u32;
        let mut items = items;
        self.loading = false;
        self.has_more = more;
        self.offset = self.offset + n;
        self.items.append(&mut items);
    }

    /// A fetch failed.
    pub fn failed(&mut self)
        ensures
            final(self)@ == (PagedView { loading: false, ..old(self)@ }),
    {
        self.loading = false;
    }

    /// Start fetching the next page: where it starts and in what order.
    pub fn more(&mut self) -> (r: (u32, O))
        ensures
            final(self)@ == (PagedView { loading: true, ..old(self)@ }),
            r == (old(self)@.offset, old(self)@.order),
    {
        self.loading = true;
        (self.offset, self.order)
    }

    /// Change the order: empty the list and fetch again from the start.
    pub fn reorder(&mut self, order: O)
        ensures
            final(self)@ == reordered(old(self)@, order),
    {
        self.order = order;
        self.items = Vec::new();
        self.offset = 0;
        self.loading = true;
    }

    /// On a tab's first visit: mark the list loading when it is empty and
    /// not loading yet, and say whether a fetch has to start.
    pub fn start_first_load(&mut self) -> (r: bool)
        ensures
            r == (old(self)@.items.len() == 0 && !old(self)@.loading),
            final(self)@ == (PagedView { loading: old(self)@.loading || r, ..old(self)@ }),
    {
        if self.items.len() == 0 && !self.loading {
            self.loading = true;
            true
        } else {
            false
        }
    }
}

/// What follows a paged list's rows.
#[derive(Debug, Clone, Copy, PartialEq, Eq)]
pub enum ListFooter {
    /// A page is on its way.
    Loading,
    /// The server has another page: a "load more" button.
    LoadMore,
    Nothing,
}

/// The footer of a list that is (or is not) loading and has (or has not)
/// another page.
pub open spec fn footer_of(loading: bool, has_more: bool) -> ListFooter {
    if loading {
        ListFooter::Loading
    } else if has_more {
        ListFooter::LoadMore
    } else {
        ListFooter::Nothing
    }
}

impl<T, O> Paged<T, O> {
    /// Whether the list shows its "nothing here yet" note: it is empty and
    /// no page is on its way.
    pub fn shows_empty_note(&self) -> (r: bool)
        ensures
            r == (self@.items.len() == 0 && !self@.loading),
    {
        self.items.len() == 0 && !self.loading
    }

    /// What follows the list's rows.
    pub fn footer(&self) -> (r: ListFooter)
        ensures
            r == footer_of(self@.loading, self@.has_more),
    {
        if self.loading {
            ListFooter::Loading
        } else if self.has_more {
            ListFooter::LoadMore
        } else {
            ListFooter::Nothing
        }
    }
}

/// Whether a favourites list has another page: this one came back full.
pub fn page_has_more(len: usize, page_size: u32) -> (r: bool)
    ensures
        r == ((len as u32) == page_size),
{
    (len as u32) == page_size
}

/// A favourite mix: its id (a mix may lack one), and what the view renders.
#[derive(Debug, Clone)]
pub struct MixEntry<M> {
    pub id: Option<String>,
    pub data: M,
}

/// A playlist of the user's, or one they favourited.
#[derive(Debug, Clone)]
pub struct PlaylistEntry<P> {
    pub uuid: Option<String>,
    pub title: String,
    pub cover: Option<String>,
    pub data: P,
}

/// The playlist covers that exist, in order.
pub open spec fn covers_of<P>(ps: Seq<PlaylistEntry<P>>) -> Seq<Seq<char>>
    decreases ps.len(),
{
    if ps.len() == 0 {
        Seq::empty()
    } else {
        let rest = covers_of(ps.drop_last());
        match ps.last().cover {
            Some(s) => rest.push(s@),
            None => rest,
        }
    }
}

pub fn playlist_covers<P>(ps: &Vec<PlaylistEntry<P>>) -> (r: Vec<String>)
    ensures
        crate::favorites::strings_view(r@) == covers_of(ps@),
{
    let mut out: Vec<String> = Vec::new();
    let mut i: usize = 0;
    while i < ps.len()
        invariant
            i <= ps@.len(),
            crate::favorites::strings_view(out@) == covers_of(ps@.subrange(0, i as int)),
        decreases ps.len() - i,
    {
        let ghost before = out@;
        proof {
            let t = ps@.subrange(0, i + 1);
            assert(t.drop_last() =~= ps@.subrange(0, i as int));
            assert(t.last() == ps@[i as int]);
        }
        match &ps[i].cover {
            Some(s) => {
                let c = s.clone();
                out.push(c);
                assert(crate::favorites::strings_view(out@) =~= crate::favorites::strings_view(
                    before,
                ).push(c@));
            },
            None => {},
        }
        i = i + 1;
    }
    assert(ps@.subrange(0, ps@.len() as int) =~= ps@);
    out
}

/// The playlists' titles, in list order.
pub open spec fn titles<P>(ps: Seq<PlaylistEntry<P>>) -> Seq<Seq<char>> {
    ps.map_values(|p: PlaylistEntry<P>| p.title@)
}

/// `order` lists every index below `n` exactly once.
pub open spec fn is_arrangement(order: Seq<usize>, n: nat) -> bool {
    &&& order.len() == n
    &&& forall|i: int| 0 <= i < n ==> #[trigger] order[i] < n
    &&& forall|i: int, j: int| 0 <= i < j < order.len() ==> #[trigger] order[i] != #[trigger] order[j]
}

/// `order` lists the titles `t` alphabetically, equal titles in list order.
pub open spec fn sorted_stably(order: Seq<usize>, t: Seq<Seq<char>>) -> bool {
    forall|i: int, j: int|
        #![trigger order[i], order[j]]
        0 <= i < j < order.len() ==> !text_before(t[order[j] as int], t[order[i] as int]) && (
        t[order[i] as int] == t[order[j] as int] ==> order[i] < order[j])
}

fn title_chars<P>(ps: &Vec<PlaylistEntry<P>>) -> (r: Vec<Vec<char>>)
    ensures
        r@.len() == ps@.len(),
        forall|i: int| 0 <= i < r@.len() ==> #[trigger] r@[i]@ == titles(ps@)[i],
{
    let mut out: Vec<Vec<char>> = Vec::new();
    let mut i: usize = 0;
    while i < ps.len()
        invariant
            i <= ps@.len(),
            out@.len() == i,
            forall|k: int| 0 <= k < i ==> #[trigger] out@[k]@ == titles(ps@)[k],
        decreases ps.len() - i,
    {
        out.push(chars_of(ps[i].title.as_str()));
        i = i + 1;
    }
    out
}

/// The order the playlists tab lists playlists in: as fetched, or
/// alphabetically by title with equal titles kept in fetched order.
pub fn display_order<P>(ps: &Vec<PlaylistEntry<P>>, by_name: bool) -> (r: Vec<usize>)
    ensures
        is_arrangement(r@, ps@.len()),
        !by_name ==> forall|i: int| 0 <= i < r@.len() ==> #[trigger] r@[i] == i,
        by_name ==> sorted_stably(r@, titles(ps@)),
{
    let n = ps.len();
    let mut order: Vec<usize> = Vec::new();
    if !by_name {
        let mut i: usize = 0;
        while i < n
            invariant
                n == ps@.len(),
                i <= n,
                order@.len() == i,
                forall|k: int| 0 <= k < i ==> #[trigger] order@[k] == k,
            decreases n - i,
        {
            order.push(i);
            i = i + 1;
        }
        return order;
    }
    let tv = title_chars(ps);
    let ghost t = titles(ps@);
    let mut k: usize = 0;
    while k < n
        invariant
            n == ps@.len(),
            t == titles(ps@),
            tv@.len() == n,
            forall|i: int| 0 <= i < n ==> #[trigger] tv@[i]@ == t[i],
            k <= n,
            order@.len() == k,
            forall|i: int| 0 <= i < k ==> #[trigger] order@[i] < k,
            forall|i: int, j: int| 0 <= i < j < order@.len() ==> #[trigger] order@[i] != #[trigger] order@[j],
            sorted_stably(order@, t),
        decreases n - k,
    {
        let mut p: usize = 0;
        while p < order.len() && !text_less(&tv[k], &tv[order[p]])
            invariant
                n == ps@.len(),
                tv@.len() == n,
                k < n,
                order@.len() == k,
                forall|i: int| 0 <= i < k ==> #[trigger] order@[i] < k,
                forall|i: int| 0 <= i < n ==> #[trigger] tv@[i]@ == t[i],
                p <= order@.len(),
                forall|q: int| 0 <= q < p ==> !text_before(t[k as int], #[trigger] t[order@[q] as int]),
            decreases order.len() - p,
        {
            p = p + 1;
        }
        let ghost before = order@;
        proof {
            assert forall|q: int| p <= q < before.len() implies text_before(
                t[k as int],
                #[trigger] t[before[q] as int],
            ) by {
                assert(text_before(t[k as int], t[before[p as int] as int]));
                if q > p {
                    assert(!text_before(t[before[q] as int], t[before[p as int] as int]));
                    lemma_text_before_total(t[before[q] as int], t[before[p as int] as int]);
                    if t[before[q] as int] != t[before[p as int] as int] {
                        lemma_text_before_transitive(
                            t[k as int],
                            t[before[p as int] as int],
                            t[before[q] as int],
                        );
                    }
                }
            }
        }
        order.insert(p, k);
        proof {
            let after = order@;
            assert(after == before.insert(p as int, k));
            assert forall|i: int| 0 <= i < k + 1 implies #[trigger] after[i] < k + 1 by {
                if i < p {
                    assert(after[i] == before[i]);
                } else if i > p {
                    assert(after[i] == before[i - 1]);
                }
            }
            assert forall|i: int, j: int| 0 <= i < j < after.len() implies #[trigger] after[i]
                != #[trigger] after[j] by {
                if i < p && j < p {
                    assert(after[i] == before[i] && after[j] == before[j]);
                } else if i < p && j == p {
                    assert(after[i] == before[i]);
                } else if i < p && j > p {
                    assert(after[i] == before[i] && after[j] == before[j - 1]);
                } else if i == p {
                    assert(after[j] == before[j - 1]);
                } else {
                    assert(after[i] == before[i - 1] && after[j] == before[j - 1]);
                }
            }
            assert forall|i: int, j: int|
                #![trigger after[i], after[j]]
                0 <= i < j < after.len() implies !text_before(t[after[j] as int], t[after[i] as int])
                && (t[after[i] as int] == t[after[j] as int] ==> after[i] < after[j]) by {
                if i < p && j < p {
                    assert(after[i] == before[i] && after[j] == before[j]);
                } else if i < p && j == p {
                    assert(after[i] == before[i]);
                    assert(!text_before(t[k as int], t[before[i] as int]));
                } else if i < p && j > p {
                    assert(after[i] == before[i] && after[j] == before[j - 1]);
                } else if i == p {
                    assert(after[j] == before[j - 1]);
                    let tj = t[before[j - 1] as int];
                    assert(text_before(t[k as int], tj));
                    lemma_text_before_asymmetric(t[k as int], tj);
                    if t[k as int] == tj {
                        lemma_text_before_irreflexive(tj);
                    }
                } else {
                    assert(after[i] == before[i - 1] && after[j] == before[j - 1]);
                }
            }
        }
        k = k + 1;
    }
    order
}

/// The mix's id is not `id`.
pub open spec fn mix_id_is_not<M>(id: Seq<char>) -> spec_fn(MixEntry<M>) -> bool {
    |m: MixEntry<M>| opt_chars(m.id) != Some(id)
}

/// Drops every mix whose id is `id`, keeping the others in order.
pub fn retain_other_mixes<M>(items: &mut Vec<MixEntry<M>>, id: &str)
    ensures
        final(items)@ == old(items)@.filter(mix_id_is_not::<M>(id@)),
{
    let ghost orig = items@;
    let ghost p = mix_id_is_not::<M>(id@);
    let mut i: usize = 0;
    let ghost mut j: int = 0;
    assert(orig.subrange(0, 0).filter(p) =~= Seq::<MixEntry<M>>::empty());
    assert(items@ =~= orig.subrange(0, 0).filter(p) + orig.subrange(0, orig.len() as int));
    while i < items.len()
        invariant
            0 <= j <= orig.len(),
            p == mix_id_is_not::<M>(id@),
            i == orig.subrange(0, j).filter(p).len(),
            items@ == orig.subrange(0, j).filter(p) + orig.subrange(j, orig.len() as int),
        decreases items.len() - i,
    {
        let ghost kept = orig.subrange(0, j).filter(p);
        proof {
            let s1 = orig.subrange(0, j + 1);
            assert(s1.drop_last() =~= orig.subrange(0, j));
            assert(s1.last() == orig[j]);
            assert(items@[i as int] == orig[j]);
            reveal_with_fuel(Seq::filter, 1);
            assert(s1.filter(p) == if p(orig[j]) {
                kept.push(orig[j])
            } else {
                kept
            });
        }
        let same = match &items[i].id {
            Some(s) => crate::text::same_text(s.as_str(), id),
            None => false,
        };
        if same {
            items.remove(i);
            proof {
                j = j + 1;
                assert(items@ =~= orig.subrange(0, j).filter(p) + orig.subrange(j, orig.len() as int));
            }
        } else {
            i = i + 1;
            proof {
                j = j + 1;
                assert(items@ =~= orig.subrange(0, j).filter(p) + orig.subrange(j, orig.len() as int));
            }
        }
    }
    proof {
        assert(orig.subrange(0, j) =~= orig);
        assert(items@ =~= orig.filter(p));
    }
}

/// A folder's display name: its `name` field when there is one, else its
/// `title` field; either only when it is a string.
pub open spec fn folder_name(v: Json) -> Option<Seq<char>> {
    match v {
        Json::Object(_) => match json_get(v, "name"@) {
            Some(n) => opt_text(Some(n)),
            None => opt_text(json_get(v, "title"@)),
        },
        _ => None,
    }
}

pub fn folder_display_name(v: &Json) -> (r: Option<String>)
    ensures
        match r {
            Some(s) => folder_name(*v) == Some(s@),
            None => folder_name(*v) is None,
        },
{
    match v {
        Json::Object(fields) => {
            match crate::json::find_field(fields, "name") {
                Some(i) => match &fields[i].1 {
                    Json::Text(s) => Some(s.clone()),
                    _ => None,
                },
                None => crate::json::field_text(fields, "title"),
            }
        },
        _ => None,
    }
}

/// The "create playlist" form while it is open.
#[derive(Debug, Clone)]
pub struct CreatePlaylist {
    pub name: String,
    pub description: String,
    pub saving: bool,
}

pub struct CreateView {
    pub name: Seq<char>,
    pub description: Seq<char>,
    pub saving: bool,
}

impl View for CreatePlaylist {
    type V = CreateView;

    open spec fn view(&self) -> CreateView {
        CreateView { name: self.name@, description: self.description@, saving: self.saving }
    }
}

pub open spec fn opt_create(c: Option<CreatePlaylist>) -> Option<CreateView> {
    match c {
        Some(c) => Some(c@),
        None => None,
    }
}

pub struct State<T, A, R, M, P> {
    pub tab: Tab,
    pub loaded: bool,
    pub tracks: Paged<Item<T>, ItemOrder>,
    pub albums: Paged<Item<A>, AlbumOrder>,
    pub artists: Paged<Item<R>, ArtistOrder>,
    pub mixes: Paged<MixEntry<M>, MixOrder>,
    pub playlists: Vec<PlaylistEntry<P>>,
    pub playlists_loading: bool,
    pub playlists_sort_by_name: bool,
    pub folders: Vec<Json>,
    pub create_playlist: Option<CreatePlaylist>,
    pub error: Option<String>,
}

pub struct CollectionView<T, A, R, M, P> {
    pub tab: Tab,
    pub loaded: bool,
    pub tracks: PagedView<Item<T>, ItemOrder>,
    pub albums: PagedView<Item<A>, AlbumOrder>,
    pub artists: PagedView<Item<R>, ArtistOrder>,
    pub mixes: PagedView<MixEntry<M>, MixOrder>,
    pub playlists: Seq<PlaylistEntry<P>>,
    pub playlists_loading: bool,
    pub playlists_sort_by_name: bool,
    pub folders: Seq<Json>,
    pub create_playlist: Option<CreateView>,
    pub error: Option<Seq<char>>,
}

impl<T, A, R, M, P> View for State<T, A, R, M, P> {
    type V = CollectionView<T, A, R, M, P>;

    open spec fn view(&self) -> CollectionView<T, A, R, M, P> {
        CollectionView {
            tab: self.tab,
            loaded: self.loaded,
            tracks: self.tracks@,
            albums: self.albums@,
            artists: self.artists@,
            mixes: self.mixes@,
            playlists: self.playlists@,
            playlists_loading: self.playlists_loading,
            playlists_sort_by_name: self.playlists_sort_by_name,
            folders: self.folders@,
            create_playlist: opt_create(self.create_playlist),
            error: opt_chars(self.error),
        }
    }
}

#[derive(Debug)]
pub enum Message<T, A, R, M, P> {
    TabSelected(Tab),
    TracksLoaded(Result<(Vec<Item<T>>, bool), String>),
    LoadMoreTracks,
    TrackOrderChanged(ItemOrder),
    Track(TrackAction),
    TrackFavoriteToggled(Result<(u64, bool), String>),
    AlbumsLoaded(Result<(Vec<Item<A>>, bool), String>),
    LoadMoreAlbums,
    AlbumOrderChanged(AlbumOrder),
    UnfavoriteAlbum(u64),
    AlbumUnfavorited(u64, Result<(), String>),
    ArtistsLoaded(Result<(Vec<Item<R>>, bool), String>),
    LoadMoreArtists,
    ArtistOrderChanged(ArtistOrder),
    UnfollowArtist(u64),
    ArtistUnfollowed(u64, Result<(), String>),
    MixesLoaded(Result<(Vec<MixEntry<M>>, bool), String>),
    LoadMoreMixes,
    MixOrderChanged(MixOrder),
    UnfavoriteMix(String),
    MixUnfavorited(String, Result<(), String>),
    PlaylistsLoaded(Result<Vec<PlaylistEntry<P>>, String>),
    FoldersLoaded(Result<Vec<Json>, String>),
    TogglePlaylistSort,
    OpenCreatePlaylist,
    CancelCreatePlaylist,
    CreatePlaylistNameChanged(String),
    CreatePlaylistDescriptionChanged(String),
    SubmitCreatePlaylist,
    PlaylistCreated(Result<(), String>),
    Navigate(EntityRef),
}

/// Work the screen needs done against the user's collection.
#[derive(Debug, Clone)]
pub enum Request {
    LoadTracks { offset: u32, order: ItemOrder },
    LoadAlbums { offset: u32, order: AlbumOrder },
    LoadArtists { offset: u32, order: ArtistOrder },
    LoadMixes { offset: u32, order: MixOrder },
    LoadPlaylists,
    LoadPlaylistsAndFolders,
    UnfavoriteAlbum { id: u64 },
    UnfollowArtist { id: u64 },
    UnfavoriteMix { id: String },
    /// Flip a track's favourite state; every listed track is a favourite.
    ToggleTrackFavorite { track_id: u64, currently_favorite: bool },
    /// Create a playlist; a blank description is left out.
    CreatePlaylist { name: String, description: Option<String> },
}

/// A request and no effects.
pub open spec fn asks(r: (Option<Request>, Vec<ScreenEffect>), q: Request) -> bool {
    r.0 == Some(q) && r.1@.len() == 0
}

/// Neither a request nor an effect.
pub open spec fn silent(r: (Option<Request>, Vec<ScreenEffect>)) -> bool {
    r.0 is None && r.1@.len() == 0
}

/// The request that visiting `tab` starts, given the state before the visit.
pub open spec fn first_visit_request<T, A, R, M, P>(
    s: CollectionView<T, A, R, M, P>,
    tab: Tab,
) -> Option<Request> {
    match tab {
        Tab::Tracks => None,
        Tab::Albums => if s.albums.items.len() == 0 && !s.albums.loading {
            Some(Request::LoadAlbums { offset: 0, order: s.albums.order })
        } else {
            None
        },
        Tab::Artists => if s.artists.items.len() == 0 && !s.artists.loading {
            Some(Request::LoadArtists { offset: 0, order: s.artists.order })
        } else {
            None
        },
        Tab::Mixes => if s.mixes.items.len() == 0 && !s.mixes.loading {
            Some(Request::LoadMixes { offset: 0, order: s.mixes.order })
        } else {
            None
        },
        Tab::Playlists => if s.playlists.len() == 0 && !s.playlists_loading {
            Some(Request::LoadPlaylistsAndFolders)
        } else {
            None
        },
    }
}

/// The state after visiting `tab`: the tab is current, and the list whose
/// first fetch starts is marked loading.
pub open spec fn after_visit<T, A, R, M, P>(
    s: CollectionView<T, A, R, M, P>,
    tab: Tab,
) -> CollectionView<T, A, R, M, P> {
    let started = first_visit_request(s, tab) is Some;
    CollectionView {
        tab,
        albums: if tab == Tab::Albums && started {
            PagedView { loading: true, ..s.albums }
        } else {
            s.albums
        },
        artists: if tab == Tab::Artists && started {
            PagedView { loading: true, ..s.artists }
        } else {
            s.artists
        },
        mixes: if tab == Tab::Mixes && started {
            PagedView { loading: true, ..s.mixes }
        } else {
            s.mixes
        },
        playlists_loading: s.playlists_loading || (tab == Tab::Playlists && started),
        ..s
    }
}

/// What a submitted "create playlist" form asks for, if anything: nothing
/// when the name is blank.
pub open spec fn create_request(c: CreateView) -> Option<(Seq<char>, Option<Seq<char>>)> {
    if trim(c.name).len() == 0 {
        None
    } else {
        Some(
            (
                c.name,
                if trim(c.description).len() == 0 {
                    None
                } else {
                    Some(c.description)
                },
            ),
        )
    }
}

/// Whether `n` more items keep the list's next-page offset within 32 bits.
pub open spec fn fits<T, O>(p: PagedView<T, O>, n: int) -> bool {
    p.offset + n <= u32::MAX
}

/// Whether the state can take `message` without its next-page offset
/// overflowing.
pub open spec fn offsets_fit<T, A, R, M, P>(
    s: CollectionView<T, A, R, M, P>,
    message: Message<T, A, R, M, P>,
) -> bool {
    match message {
        Message::TracksLoaded(Ok((items, _))) => fits(s.tracks, items@.len() as int),
        Message::AlbumsLoaded(Ok((items, _))) => fits(s.albums, items@.len() as int),
        Message::ArtistsLoaded(Ok((items, _))) => fits(s.artists, items@.len() as int),
        Message::MixesLoaded(Ok((items, _))) => fits(s.mixes, items@.len() as int),
        _ => true,
    }
}


/// The screen's answer to one message: `n` is the state after `s` handled
/// `message`, and `r` the request and effects it produced.
pub open spec fn handled<T, A, R, M, P>(
    s: CollectionView<T, A, R, M, P>,
    message: Message<T, A, R, M, P>,
    n: CollectionView<T, A, R, M, P>,
    r: (Option<Request>, Vec<ScreenEffect>),
) -> bool {
    match message {
        Message::TabSelected(tab) => n == after_visit(s, tab) && r.0 == first_visit_request(s, tab)
            && r.1@.len() == 0,
        Message::TracksLoaded(Ok((items, more))) => n == (CollectionView {
            tracks: page_arrived(s.tracks, items@, more),
            ..s
        }) && silent(r),
        Message::TracksLoaded(Err(e)) => n == (CollectionView {
            tracks: PagedView { loading: false, ..s.tracks },
            error: err_text(e),
            ..s
        }) && silent(r),
        Message::LoadMoreTracks => n == (CollectionView {
            tracks: PagedView { loading: true, ..s.tracks },
            ..s
        }) && asks(r, Request::LoadTracks { offset: s.tracks.offset, order: s.tracks.order }),
        Message::TrackOrderChanged(order) => n == (CollectionView {
            tracks: reordered(s.tracks, order),
            ..s
        }) && asks(r, Request::LoadTracks { offset: 0, order }),
        Message::Track(action) => n == s && exists|t: Option<(u64, bool)>|
            track_result_ok(action, true, t, r.1@) && match (t, r.0) {
                (
                    Some((id, c)),
                    Some(Request::ToggleTrackFavorite { track_id, currently_favorite }),
                ) => track_id == id && currently_favorite == c,
                (None, None) => true,
                _ => false,
            },
        Message::TrackFavoriteToggled(Ok((id, now))) => n == (CollectionView {
            tracks: if now {
                s.tracks
            } else {
                PagedView { items: s.tracks.items.filter(item_id_is_not::<T>(id)), ..s.tracks }
            },
            ..s
        }) && silent(r),
        Message::TrackFavoriteToggled(Err(e)) => n == (CollectionView { error: err_text(e), ..s })
            && silent(r),
        Message::AlbumsLoaded(Ok((items, more))) => n == (CollectionView {
            albums: page_arrived(s.albums, items@, more),
            ..s
        }) && r.0 is None && only_images(r.1@, images_of(items@)),
        Message::AlbumsLoaded(Err(e)) => n == (CollectionView {
            albums: PagedView { loading: false, ..s.albums },
            error: err_text(e),
            ..s
        }) && silent(r),
        Message::LoadMoreAlbums => n == (CollectionView {
            albums: PagedView { loading: true, ..s.albums },
            ..s
        }) && asks(r, Request::LoadAlbums { offset: s.albums.offset, order: s.albums.order }),
        Message::AlbumOrderChanged(order) => n == (CollectionView {
            albums: reordered(s.albums, order),
            ..s
        }) && asks(r, Request::LoadAlbums { offset: 0, order }),
        Message::UnfavoriteAlbum(id) => n == s && asks(r, Request::UnfavoriteAlbum { id }),
        Message::AlbumUnfavorited(id, Ok(())) => n == (CollectionView {
            albums: PagedView { items: s.albums.items.filter(item_id_is_not::<A>(id)), ..s.albums },
            ..s
        }) && silent(r),
        Message::AlbumUnfavorited(_, Err(e)) => n == (CollectionView { error: err_text(e), ..s })
            && silent(r),
        Message::ArtistsLoaded(Ok((items, more))) => n == (CollectionView {
            artists: page_arrived(s.artists, items@, more),
            ..s
        }) && r.0 is None && only_images(r.1@, images_of(items@)),
        Message::ArtistsLoaded(Err(e)) => n == (CollectionView {
            artists: PagedView { loading: false, ..s.artists },
            error: err_text(e),
            ..s
        }) && silent(r),
        Message::LoadMoreArtists => n == (CollectionView {
            artists: PagedView { loading: true, ..s.artists },
            ..s
        }) && asks(r, Request::LoadArtists { offset: s.artists.offset, order: s.artists.order }),
        Message::ArtistOrderChanged(order) => n == (CollectionView {
            artists: reordered(s.artists, order),
            ..s
        }) && asks(r, Request::LoadArtists { offset: 0, order }),
        Message::UnfollowArtist(id) => n == s && asks(r, Request::UnfollowArtist { id }),
        Message::ArtistUnfollowed(id, Ok(())) => n == (CollectionView {
            artists: PagedView {
                items: s.artists.items.filter(item_id_is_not::<R>(id)),
                ..s.artists
            },
            ..s
        }) && silent(r),
        Message::ArtistUnfollowed(_, Err(e)) => n == (CollectionView { error: err_text(e), ..s })
            && silent(r),
        Message::MixesLoaded(Ok((items, more))) => n == (CollectionView {
            mixes: page_arrived(s.mixes, items@, more),
            ..s
        }) && silent(r),
        Message::MixesLoaded(Err(e)) => n == (CollectionView {
            mixes: PagedView { loading: false, ..s.mixes },
            error: err_text(e),
            ..s
        }) && silent(r),
        Message::LoadMoreMixes => n == (CollectionView {
            mixes: PagedView { loading: true, ..s.mixes },
            ..s
        }) && asks(r, Request::LoadMixes { offset: s.mixes.offset, order: s.mixes.order }),
        Message::MixOrderChanged(order) => n == (CollectionView {
            mixes: reordered(s.mixes, order),
            ..s
        }) && asks(r, Request::LoadMixes { offset: 0, order }),
        Message::UnfavoriteMix(id) => n == s && r.1@.len() == 0 && (r.0 matches Some(
            Request::UnfavoriteMix { id: i },
        ) && i@ == id@),
        Message::MixUnfavorited(id, Ok(())) => n == (CollectionView {
            mixes: PagedView { items: s.mixes.items.filter(mix_id_is_not::<M>(id@)), ..s.mixes },
            ..s
        }) && silent(r),
        Message::MixUnfavorited(_, Err(e)) => n == (CollectionView { error: err_text(e), ..s })
            && silent(r),
        Message::PlaylistsLoaded(Ok(ps)) => n == (CollectionView {
            playlists: ps@,
            playlists_loading: false,
            ..s
        }) && r.0 is None && only_images(r.1@, covers_of(ps@)),
        Message::PlaylistsLoaded(Err(e)) => n == (CollectionView {
            playlists_loading: false,
            error: err_text(e),
            ..s
        }) && silent(r),
        Message::FoldersLoaded(Ok(f)) => n == (CollectionView { folders: f@, ..s }) && silent(r),
        Message::FoldersLoaded(Err(_)) => n == s && silent(r),
        Message::TogglePlaylistSort => n == (CollectionView {
            playlists_sort_by_name: !s.playlists_sort_by_name,
            ..s
        }) && silent(r),
        Message::OpenCreatePlaylist => n == (CollectionView {
            create_playlist: Some(
                CreateView { name: Seq::empty(), description: Seq::empty(), saving: false },
            ),
            ..s
        }) && silent(r),
        Message::CancelCreatePlaylist => n == (CollectionView { create_playlist: None, ..s })
            && silent(r),
        Message::CreatePlaylistNameChanged(v) => n == (CollectionView {
            create_playlist: match s.create_playlist {
                Some(c) => Some(CreateView { name: v@, ..c }),
                None => None,
            },
            ..s
        }) && silent(r),
        Message::CreatePlaylistDescriptionChanged(v) => n == (CollectionView {
            create_playlist: match s.create_playlist {
                Some(c) => Some(CreateView { description: v@, ..c }),
                None => None,
            },
            ..s
        }) && silent(r),
        Message::SubmitCreatePlaylist => r.1@.len() == 0 && match s.create_playlist {
            Some(c) => match create_request(c) {
                Some((name, description)) => n == (CollectionView {
                    create_playlist: Some(CreateView { saving: true, ..c }),
                    ..s
                }) && (r.0 matches Some(Request::CreatePlaylist { name: nm, description: d })
                    && nm@ == name && opt_chars(d) == description),
                None => n == s && r.0 is None,
            },
            None => n == s && r.0 is None,
        },
        Message::PlaylistCreated(Ok(())) => n == (CollectionView {
            create_playlist: None,
            playlists_loading: true,
            ..s
        }) && asks(r, Request::LoadPlaylists),
        Message::PlaylistCreated(Err(e)) => n == (CollectionView {
            create_playlist: match s.create_playlist {
                Some(c) => Some(CreateView { saving: false, ..c }),
                None => None,
            },
            error: err_text(e),
            ..s
        }) && silent(r),
        Message::Navigate(entity) => n == s && r.0 is None && r.1@.len() == 1 && (
        r.1@[0] matches ScreenEffect::Navigate(e) && e@ == entity@),
    }
}

pub open spec fn is_list_message<T, A, R, M, P>(m: Message<T, A, R, M, P>) -> bool {
    ||| m is TracksLoaded
    ||| m is LoadMoreTracks
    ||| m is TrackOrderChanged
    ||| m is TrackFavoriteToggled
    ||| m is AlbumsLoaded
    ||| m is LoadMoreAlbums
    ||| m is AlbumOrderChanged
    ||| m is AlbumUnfavorited
    ||| m is ArtistsLoaded
    ||| m is LoadMoreArtists
    ||| m is ArtistOrderChanged
    ||| m is ArtistUnfollowed
    ||| m is MixesLoaded
    ||| m is LoadMoreMixes
    ||| m is MixOrderChanged
    ||| m is MixUnfavorited
}

/// Whether a message is about one of the four paged lists.
fn is_list<T, A, R, M, P>(m: &Message<T, A, R, M, P>) -> (r: bool)
    ensures
        r == is_list_message(*m),
{
    match m {
        Message::TracksLoaded(_) | Message::LoadMoreTracks | Message::TrackOrderChanged(_)
        | Message::TrackFavoriteToggled(_) | Message::AlbumsLoaded(_) | Message::LoadMoreAlbums
        | Message::AlbumOrderChanged(_) | Message::AlbumUnfavorited(_, _)
        | Message::ArtistsLoaded(_) | Message::LoadMoreArtists | Message::ArtistOrderChanged(_)
        | Message::ArtistUnfollowed(_, _) | Message::MixesLoaded(_) | Message::LoadMoreMixes
        | Message::MixOrderChanged(_) | Message::MixUnfavorited(_, _) => true,
        _ => false,
    }
}

impl<T, A, R, M, P> State<T, A, R, M, P> {
    /// A screen that has not been opened yet: the tracks tab, whose first
    /// page is about to be fetched.
    pub fn new() -> (r: State<T, A, R, M, P>)
        ensures
            r@ == (CollectionView::<T, A, R, M, P> {
                tab: Tab::Tracks,
                loaded: false,
                tracks: PagedView {
                    items: Seq::empty(),
                    offset: 0,
                    has_more: false,
                    loading: true,
                    order: ItemOrder::Date,
                },
                albums: PagedView {
                    items: Seq::empty(),
                    offset: 0,
                    has_more: false,
                    loading: false,
                    order: AlbumOrder::Date,
                },
                artists: PagedView {
                    items: Seq::empty(),
                    offset: 0,
                    has_more: false,
                    loading: false,
                    order: ArtistOrder::Date,
                },
                mixes: PagedView {
                    items: Seq::empty(),
                    offset: 0,
                    has_more: false,
                    loading: false,
                    order: MixOrder::Date,
                },
                playlists: Seq::empty(),
                playlists_loading: false,
                playlists_sort_by_name: false,
                folders: Seq::empty(),
                create_playlist: None,
                error: None,
            }),
    {
        State {
            tab: Tab::Tracks,
            loaded: false,
            tracks: Paged::new(ItemOrder::Date, true),
            albums: Paged::new(AlbumOrder::Date, false),
            artists: Paged::new(ArtistOrder::Date, false),
            mixes: Paged::new(MixOrder::Date, false),
            playlists: Vec::new(),
            playlists_loading: false,
            playlists_sort_by_name: false,
            folders: Vec::new(),
            create_playlist: None,
            error: None,
        }
    }

    /// The fetch that opening the screen starts: the first page of
    /// favourite tracks, newest first.
    pub fn load() -> (r: Request)
        ensures
            r == (Request::LoadTracks { offset: 0, order: ItemOrder::Date }),
    {
        Request::LoadTracks { offset: 0, order: ItemOrder::Date }
    }

    pub fn is_loaded(&self) -> (r: bool)
        ensures
            r == self.loaded,
    {
        self.loaded
    }

    /// Handles one message; every message also marks the screen as opened.
    pub fn update(&mut self, message: Message<T, A, R, M, P>) -> (r: (Option<Request>, Vec<ScreenEffect>))
        requires
            offsets_fit(old(self)@, message),
        ensures
            handled(CollectionView { loaded: true, ..old(self)@ }, message, final(self)@, r),
    {
        self.loaded = true;
        if is_list(&message) {
            self.on_list(message)
        } else {
            self.on_other(message)
        }
    }

    /// Messages about the four paged lists.
    #[verifier::rlimit(40)]
    fn on_list(&mut self, message: Message<T, A, R, M, P>) -> (r: (Option<Request>, Vec<ScreenEffect>))
        requires
            is_list_message(message),
            offsets_fit(old(self)@, message),
        ensures
            handled(old(self)@, message, final(self)@, r),
    {
        match message {
            Message::TracksLoaded(Ok((items, more))) => {
                self.tracks.arrived(items, more);
                (None, Vec::new())
            },
            Message::TracksLoaded(Err(e)) => {
                self.tracks.failed();
                self.error = Some(e);
                (None, Vec::new())
            },
            Message::LoadMoreTracks => {
                let (offset, order) = self.tracks.more();
                (Some(Request::LoadTracks { offset, order }), Vec::new())
            },
            Message::TrackOrderChanged(order) => {
                self.tracks.reorder(order);
                (Some(Request::LoadTracks { offset: 0, order }), Vec::new())
            },
            Message::TrackFavoriteToggled(Ok((id, now))) => {
                if !now {
                    retain_other_ids(&mut self.tracks.items, id);
                }
                (None, Vec::new())
            },
            Message::TrackFavoriteToggled(Err(e)) => {
                self.error = Some(e);
                (None, Vec::new())
            },
            Message::AlbumsLoaded(Ok((items, more))) => {
                let images = image_ids(&items);
                self.albums.arrived(items, more);
                (None, one(ScreenEffect::ImagesNeeded(images)))
            },
            Message::AlbumsLoaded(Err(e)) => {
                self.albums.failed();
                self.error = Some(e);
                (None, Vec::new())
            },
            Message::LoadMoreAlbums => {
                let (offset, order) = self.albums.more();
                (Some(Request::LoadAlbums { offset, order }), Vec::new())
            },
            Message::AlbumOrderChanged(order) => {
                self.albums.reorder(order);
                (Some(Request::LoadAlbums { offset: 0, order }), Vec::new())
            },
            Message::AlbumUnfavorited(id, Ok(())) => {
                retain_other_ids(&mut self.albums.items, id);
                (None, Vec::new())
            },
            Message::AlbumUnfavorited(_, Err(e)) => {
                self.error = Some(e);
                (None, Vec::new())
            },
            Message::ArtistsLoaded(Ok((items, more))) => {
                let images = image_ids(&items);
                self.artists.arrived(items, more);
                (None, one(ScreenEffect::ImagesNeeded(images)))
            },
            Message::ArtistsLoaded(Err(e)) => {
                self.artists.failed();
                self.error = Some(e);
                (None, Vec::new())
            },
            Message::LoadMoreArtists => {
                let (offset, order) = self.artists.more();
                (Some(Request::LoadArtists { offset, order }), Vec::new())
            },
            Message::ArtistOrderChanged(order) => {
                self.artists.reorder(order);
                (Some(Request::LoadArtists { offset: 0, order }), Vec::new())
            },
            Message::ArtistUnfollowed(id, Ok(())) => {
                retain_other_ids(&mut self.artists.items, id);
                (None, Vec::new())
            },
            Message::ArtistUnfollowed(_, Err(e)) => {
                self.error = Some(e);
                (None, Vec::new())
            },
            Message::MixesLoaded(Ok((items, more))) => {
                self.mixes.arrived(items, more);
                (None, Vec::new())
            },
            Message::MixesLoaded(Err(e)) => {
                self.mixes.failed();
                self.error = Some(e);
                (None, Vec::new())
            },
            Message::LoadMoreMixes => {
                let (offset, order) = self.mixes.more();
                (Some(Request::LoadMixes { offset, order }), Vec::new())
            },
            Message::MixOrderChanged(order) => {
                self.mixes.reorder(order);
                (Some(Request::LoadMixes { offset: 0, order }), Vec::new())
            },
            Message::MixUnfavorited(id, Ok(())) => {
                retain_other_mixes(&mut self.mixes.items, id.as_str());
                (None, Vec::new())
            },
            Message::MixUnfavorited(_, Err(e)) => {
                self.error = Some(e);
                (None, Vec::new())
            },
            _ => (None, Vec::new()),
        }
    }

    /// Tabs, unfavourite requests, the playlists tab and the create form.
    #[verifier::rlimit(40)]
    fn on_other(&mut self, message: Message<T, A, R, M, P>) -> (r: (Option<Request>, Vec<ScreenEffect>))
        requires
            !is_list_message(message),
        ensures
            handled(old(self)@, message, final(self)@, r),
    {
        match message {
            Message::TabSelected(tab) => (self.select_tab(tab), Vec::new()),
            Message::Track(action) => {
                let (toggle, effects) = run_track_action(action, true);
                let req = match toggle {
                    Some((track_id, c)) => Some(
                        Request::ToggleTrackFavorite { track_id, currently_favorite: c },
                    ),
                    None => None,
                };
                (req, effects)
            },
            Message::UnfavoriteAlbum(id) => (Some(Request::UnfavoriteAlbum { id }), Vec::new()),
            Message::UnfollowArtist(id) => (Some(Request::UnfollowArtist { id }), Vec::new()),
            Message::UnfavoriteMix(id) => (Some(Request::UnfavoriteMix { id }), Vec::new()),
            Message::PlaylistsLoaded(Ok(ps)) => {
                let images = playlist_covers(&ps);
                self.playlists_loading = false;
                self.playlists = ps;
                (None, one(ScreenEffect::ImagesNeeded(images)))
            },
            Message::PlaylistsLoaded(Err(e)) => {
                self.playlists_loading = false;
                self.error = Some(e);
                (None, Vec::new())
            },
            Message::FoldersLoaded(Ok(f)) => {
                self.folders = f;
                (None, Vec::new())
            },
            Message::FoldersLoaded(Err(_)) => (None, Vec::new()),
            Message::TogglePlaylistSort => {
                self.playlists_sort_by_name = !self.playlists_sort_by_name;
                (None, Vec::new())
            },
            Message::OpenCreatePlaylist => {
                self.create_playlist = Some(
                    CreatePlaylist { name: String::new(), description: String::new(), saving: false },
                );
                (None, Vec::new())
            },
            Message::CancelCreatePlaylist => {
                self.create_playlist = None;
                (None, Vec::new())
            },
            Message::CreatePlaylistNameChanged(v) => {
                match &mut self.create_playlist {
                    Some(c) => {
                        c.name = v;
                    },
                    None => {},
                }
                (None, Vec::new())
            },
            Message::CreatePlaylistDescriptionChanged(v) => {
                match &mut self.create_playlist {
                    Some(c) => {
                        c.description = v;
                    },
                    None => {},
                }
                (None, Vec::new())
            },
            Message::SubmitCreatePlaylist => (self.submit_create(), Vec::new()),
            Message::PlaylistCreated(Ok(())) => {
                self.create_playlist = None;
                self.playlists_loading = true;
                (Some(Request::LoadPlaylists), Vec::new())
            },
            Message::PlaylistCreated(Err(e)) => {
                match &mut self.create_playlist {
                    Some(c) => {
                        c.saving = false;
                    },
                    None => {},
                }
                self.error = Some(e);
                (None, Vec::new())
            },
            Message::Navigate(entity) => (None, one(ScreenEffect::Navigate(entity))),
            _ => (None, Vec::new()),
        }
    }

    /// Switch to `tab`, starting its first fetch when it has none yet.
    pub fn select_tab(&mut self, tab: Tab) -> (r: Option<Request>)
        ensures
            final(self)@ == after_visit(old(self)@, tab),
            r == first_visit_request(old(self)@, tab),
    {
        self.tab = tab;
        match tab {
            Tab::Tracks => None,
            Tab::Albums => if self.albums.start_first_load() {
                Some(Request::LoadAlbums { offset: 0, order: self.albums.order })
            } else {
                None
            },
            Tab::Artists => if self.artists.start_first_load() {
                Some(Request::LoadArtists { offset: 0, order: self.artists.order })
            } else {
                None
            },
            Tab::Mixes => if self.mixes.start_first_load() {
                Some(Request::LoadMixes { offset: 0, order: self.mixes.order })
            } else {
                None
            },
            Tab::Playlists => if self.playlists.len() == 0 && !self.playlists_loading {
                self.playlists_loading = true;
                Some(Request::LoadPlaylistsAndFolders)
            } else {
                None
            },
        }
    }

    /// Submit the "create playlist" form: unless the name is blank, mark it
    /// saving and ask for the playlist.
    pub fn submit_create(&mut self) -> (r: Option<Request>)
        ensures
            match old(self)@.create_playlist {
                Some(c) => match create_request(c) {
                    Some((name, description)) => final(self)@ == (CollectionView {
                        create_playlist: Some(CreateView { saving: true, ..c }),
                        ..old(self)@
                    }) && (r matches Some(Request::CreatePlaylist { name: n, description: d })
                        && n@ == name && opt_chars(d) == description),
                    None => final(self)@ == old(self)@ && r is None,
                },
                None => final(self)@ == old(self)@ && r is None,
            },
    {
        match &mut self.create_playlist {
            Some(c) => {
                if blank(c.name.as_str()) {
                    None
                } else {
                    c.saving = true;
                    let description = if blank(c.description.as_str()) {
                        None
                    } else {
                        Some(c.description.clone())
                    };
                    Some(Request::CreatePlaylist { name: c.name.clone(), description })
                }
            },
            None => None,
        }
    }
}

/// What filtering keeps: only entries that pass, each of them from the
/// list, and every entry of the list that passes.
proof fn lemma_filter_keeps<X>(old: Seq<X>, p: spec_fn(X) -> bool)
    ensures
        forall|i: int|
            0 <= i < old.filter(p).len() ==> p(#[trigger] old.filter(p)[i]) && old.contains(
                old.filter(p)[i],
            ),
        forall|i: int| 0 <= i < old.len() && p(#[trigger] old[i]) ==> old.filter(p).contains(old[i]),
{
    broadcast use vstd::seq_lib::group_filter_ensures;

    assert forall|i: int| 0 <= i < old.filter(p).len() implies p(#[trigger] old.filter(p)[i])
        && old.contains(old.filter(p)[i]) by {
        assert(old.filter(p).contains(old.filter(p)[i]));
        old.lemma_filter_contains_rev(p, old.filter(p)[i]);
    }
}

/// A confirmed unfollow takes the artist off the Artists tab: afterwards no
/// listed artist has its id, the list is the old one with exactly the
/// entries of that id left out (the others in their order), and the other
/// tabs are untouched.
pub proof fn law_unfollowed_artist_is_gone<T, A, R, M, P>(
    s: CollectionView<T, A, R, M, P>,
    id: u64,
    n: CollectionView<T, A, R, M, P>,
    r: (Option<Request>, Vec<ScreenEffect>),
)
    requires
        handled(s, Message::<T, A, R, M, P>::ArtistUnfollowed(id, Ok(())), n, r),
    ensures
        n.artists.items == s.artists.items.filter(|e: Item<R>| e.id != id),
        forall|i: int|
            0 <= i < n.artists.items.len() ==> (#[trigger] n.artists.items[i]).id != id
                && s.artists.items.contains(n.artists.items[i]),
        forall|i: int|
            0 <= i < s.artists.items.len() && (#[trigger] s.artists.items[i]).id != id
                ==> n.artists.items.contains(s.artists.items[i]),
        n.tracks == s.tracks && n.albums == s.albums && n.mixes == s.mixes,
        r.0 is None,
{
    assert(item_id_is_not::<R>(id) =~= (|e: Item<R>| e.id != id));
    lemma_filter_keeps(s.artists.items, |e: Item<R>| e.id != id);
}

/// A confirmed unfavourite takes the album off the Albums tab: afterwards no
/// listed album has its id, the list is the old one with exactly the entries
/// of that id left out, and the other tabs are untouched.
pub proof fn law_unfavorited_album_is_gone<T, A, R, M, P>(
    s: CollectionView<T, A, R, M, P>,
    id: u64,
    n: CollectionView<T, A, R, M, P>,
    r: (Option<Request>, Vec<ScreenEffect>),
)
    requires
        handled(s, Message::<T, A, R, M, P>::AlbumUnfavorited(id, Ok(())), n, r),
    ensures
        n.albums.items == s.albums.items.filter(|e: Item<A>| e.id != id),
        forall|i: int|
            0 <= i < n.albums.items.len() ==> (#[trigger] n.albums.items[i]).id != id
                && s.albums.items.contains(n.albums.items[i]),
        forall|i: int|
            0 <= i < s.albums.items.len() && (#[trigger] s.albums.items[i]).id != id
                ==> n.albums.items.contains(s.albums.items[i]),
        n.tracks == s.tracks && n.artists == s.artists && n.mixes == s.mixes,
        r.0 is None,
{
    assert(item_id_is_not::<A>(id) =~= (|e: Item<A>| e.id != id));
    lemma_filter_keeps(s.albums.items, |e: Item<A>| e.id != id);
}

/// A track confirmed as no longer a favourite leaves the Tracks tab; one
/// confirmed as a favourite leaves the list as it was.
pub proof fn law_unfavorited_track_is_gone<T, A, R, M, P>(
    s: CollectionView<T, A, R, M, P>,
    id: u64,
    now: bool,
    n: CollectionView<T, A, R, M, P>,
    r: (Option<Request>, Vec<ScreenEffect>),
)
    requires
        handled(s, Message::<T, A, R, M, P>::TrackFavoriteToggled(Ok((id, now))), n, r),
    ensures
        now ==> n.tracks == s.tracks,
        !now ==> n.tracks.items == s.tracks.items.filter(|e: Item<T>| e.id != id),
        !now ==> forall|i: int|
            0 <= i < n.tracks.items.len() ==> (#[trigger] n.tracks.items[i]).id != id,
        !now ==> forall|i: int|
            0 <= i < s.tracks.items.len() && (#[trigger] s.tracks.items[i]).id != id
                ==> n.tracks.items.contains(s.tracks.items[i]),
        n.albums == s.albums && n.artists == s.artists && n.mixes == s.mixes,
        r.0 is None,
{
    assert(item_id_is_not::<T>(id) =~= (|e: Item<T>| e.id != id));
    lemma_filter_keeps(s.tracks.items, |e: Item<T>| e.id != id);
}

/// A confirmed unfavourite takes the mix off the Mixes tab: afterwards no
/// listed mix has that id, and every mix with another id (or none) stays.
pub proof fn law_unfavorited_mix_is_gone<T, A, R, M, P>(
    s: CollectionView<T, A, R, M, P>,
    id: String,
    n: CollectionView<T, A, R, M, P>,
    r: (Option<Request>, Vec<ScreenEffect>),
)
    requires
        handled(s, Message::<T, A, R, M, P>::MixUnfavorited(id, Ok(())), n, r),
    ensures
        forall|i: int|
            0 <= i < n.mixes.items.len() ==> ((#[trigger] n.mixes.items[i]).id matches Some(m)
                ==> m@ != id@),
        forall|i: int|
            0 <= i < s.mixes.items.len() && !((#[trigger] s.mixes.items[i]).id matches Some(m)
                && m@ == id@) ==> n.mixes.items.contains(s.mixes.items[i]),
        n.tracks == s.tracks && n.albums == s.albums && n.artists == s.artists,
        r.0 is None,
{
    lemma_filter_keeps(s.mixes.items, mix_id_is_not::<M>(id@));
}

} // verus!
