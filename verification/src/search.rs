//! Search: all result types with a type filter, and debounced input. Each
//! edit of the query starts a new generation; a debounce tick or a result
//! that belongs to an older generation is dropped.
use vstd::prelude::*;

use crate::actions::{QueuePosition, ScreenEffect};
use crate::album::{one, only_images};
use crate::favorites::{image_ids, images_of, Item};
use crate::format::opt_chars;
use crate::nav::EntityRef;
use crate::text::{blank, trim};

verus! {

/// How long the query must stay unchanged before a search runs.
pub const DEBOUNCE_MS: u64 = 300;

/// How many results of each type one search asks for.
pub const SEARCH_LIMIT: u32 = 25;

#[derive(Debug, Clone, Copy, PartialEq, Eq)]
pub enum TypeFilter {
    All,
    Tracks,
    Albums,
    Artists,
    Playlists,
}

pub open spec fn filter_text(f: TypeFilter) -> Seq<char> {
    match f {
        TypeFilter::All => "All"@,
        TypeFilter::Tracks => "Tracks"@,
        TypeFilter::Albums => "Albums"@,
        TypeFilter::Artists => "Artists"@,
        TypeFilter::Playlists => "Playlists"@,
    }
}

impl TypeFilter {
    /// Every filter, in display order.
    pub fn all() -> (r: [TypeFilter; 5])
        ensures
            r@ == seq![
                TypeFilter::All,
                TypeFilter::Tracks,
                TypeFilter::Albums,
                TypeFilter::Artists,
                TypeFilter::Playlists,
            ],
    {
        [
            TypeFilter::All,
            TypeFilter::Tracks,
            TypeFilter::Albums,
            TypeFilter::Artists,
            TypeFilter::Playlists,
        ]
    }

    pub fn label(self) -> (r: &'static str)
        ensures
            r@ == filter_text(self),
    {
        match self {
            TypeFilter::All => "All",
            TypeFilter::Tracks => "Tracks",
            TypeFilter::Albums => "Albums",
            TypeFilter::Artists => "Artists",
            TypeFilter::Playlists => "Playlists",
        }
    }

    /// Whether results of `kind` (a filter other than `All`) are shown
    /// under this filter.
    pub fn shows(self, kind: TypeFilter) -> (r: bool)
        ensures
            r == (self == TypeFilter::All || self == kind),
    {
        match self {
            TypeFilter::All => true,
            TypeFilter::Tracks => matches!(kind, TypeFilter::Tracks),
            TypeFilter::Albums => matches!(kind, TypeFilter::Albums),
            TypeFilter::Artists => matches!(kind, TypeFilter::Artists),
            TypeFilter::Playlists => matches!(kind, TypeFilter::Playlists),
        }
    }
}

/// One search's results, by type; albums and artists carry artwork ids.
#[derive(Debug, Clone)]
pub struct SearchResults<T, A, R, P> {
    pub tracks: Vec<Item<T>>,
    pub albums: Vec<Item<A>>,
    pub artists: Vec<Item<R>>,
    pub playlists: Vec<P>,
}

/// The artwork ids of a search's results: album covers, then artist
/// pictures.
pub open spec fn result_images<T, A, R, P>(r: SearchResults<T, A, R, P>) -> Seq<Seq<char>> {
    images_of(r.albums@) + images_of(r.artists@)
}

pub fn results_images<T, A, R, P>(r: &SearchResults<T, A, R, P>) -> (v: Vec<String>)
    ensures
        crate::favorites::strings_view(v@) == result_images(*r),
{
    let mut a = image_ids(&r.albums);
    let mut b = image_ids(&r.artists);
    let ghost va = a@;
    let ghost vb = b@;
    a.append(&mut b);
    assert(crate::favorites::strings_view(a@) =~= crate::favorites::strings_view(va)
        + crate::favorites::strings_view(vb));
    a
}

/// A kind's place among the result groups, top to bottom.
pub open spec fn rank(kind: TypeFilter) -> int {
    match kind {
        TypeFilter::All => 0,
        TypeFilter::Tracks => 1,
        TypeFilter::Albums => 2,
        TypeFilter::Artists => 3,
        TypeFilter::Playlists => 4,
    }
}

/// `groups` followed by `kind` when that kind is shown under `filter` and
/// has results.
pub open spec fn with_group(
    groups: Seq<TypeFilter>,
    filter: TypeFilter,
    kind: TypeFilter,
    count: nat,
) -> Seq<TypeFilter> {
    if (filter == TypeFilter::All || filter == kind) && count > 0 {
        groups.push(kind)
    } else {
        groups
    }
}

/// The result groups a search page shows, in order: tracks, albums,
/// artists, playlists, each when the filter admits it and it is not empty.
pub open spec fn groups_shown<T, A, R, P>(filter: TypeFilter, r: SearchResults<T, A, R, P>) -> Seq<
    TypeFilter,
> {
    let g1 = with_group(Seq::empty(), filter, TypeFilter::Tracks, r.tracks@.len());
    let g2 = with_group(g1, filter, TypeFilter::Albums, r.albums@.len());
    let g3 = with_group(g2, filter, TypeFilter::Artists, r.artists@.len());
    with_group(g3, filter, TypeFilter::Playlists, r.playlists@.len())
}

/// The result groups shown under `filter`; an empty list is the page's
/// "No results." case.
pub fn shown_groups<T, A, R, P>(filter: TypeFilter, results: &SearchResults<T, A, R, P>) -> (r: Vec<
    TypeFilter,
>)
    ensures
        r@ == groups_shown(filter, *results),
{
    let mut r: Vec<TypeFilter> = Vec::new();
    if filter.shows(TypeFilter::Tracks) && results.tracks.len() > 0 {
        r.push(TypeFilter::Tracks);
    }
    if filter.shows(TypeFilter::Albums) && results.albums.len() > 0 {
        r.push(TypeFilter::Albums);
    }
    if filter.shows(TypeFilter::Artists) && results.artists.len() > 0 {
        r.push(TypeFilter::Artists);
    }
    if filter.shows(TypeFilter::Playlists) && results.playlists.len() > 0 {
        r.push(TypeFilter::Playlists);
    }
    r
}

pub struct State<T, A, R, P> {
    pub query: String,
    pub filter: TypeFilter,
    pub results: Option<SearchResults<T, A, R, P>>,
    pub loading: bool,
    pub error: Option<String>,
    pub generation: u64,
}

pub struct SearchView<T, A, R, P> {
    pub query: Seq<char>,
    pub filter: TypeFilter,
    pub results: Option<SearchResults<T, A, R, P>>,
    pub loading: bool,
    pub error: Option<Seq<char>>,
    pub generation: u64,
}

impl<T, A, R, P> View for State<T, A, R, P> {
    type V = SearchView<T, A, R, P>;

    open spec fn view(&self) -> SearchView<T, A, R, P> {
        SearchView {
            query: self.query@,
            filter: self.filter,
            results: self.results,
            loading: self.loading,
            error: opt_chars(self.error),
            generation: self.generation,
        }
    }
}

#[derive(Debug)]
pub enum Message<T, A, R, P> {
    QueryChanged(String),
    FilterChanged(TypeFilter),
    Debounced(u64),
    ResultsLoaded(u64, Result<SearchResults<T, A, R, P>, String>),
    TrackClicked(u64),
    PlayNext(u64),
    AddLast(u64),
    EntityClicked(EntityRef),
}

/// Work the screen needs done: wait out the debounce for a generation, or
/// run the search for one.
#[derive(Debug, Clone)]
pub enum Request {
    Debounce { generation: u64 },
    Search { query: String, generation: u64 },
}

/// The screen's answer to one message.
pub open spec fn step<T, A, R, P>(
    s: SearchView<T, A, R, P>,
    message: Message<T, A, R, P>,
    n: SearchView<T, A, R, P>,
    r: (Option<Request>, Vec<ScreenEffect>),
) -> bool {
    match message {
        Message::QueryChanged(q) => r.1@.len() == 0 && if trim(q@).len() == 0 {
            n == (SearchView {
                query: q@,
                generation: (s.generation + 1) as u64,
                results: None,
                loading: false,
                ..s
            }) && r.0 is None
        } else {
            n == (SearchView { query: q@, generation: (s.generation + 1) as u64, ..s }) && r.0
                == Some(Request::Debounce { generation: (s.generation + 1) as u64 })
        },
        Message::FilterChanged(f) => n == (SearchView { filter: f, ..s }) && r.0 is None
            && r.1@.len() == 0,
        Message::Debounced(g) => r.1@.len() == 0 && if g != s.generation || trim(s.query).len()
            == 0 {
            n == s && r.0 is None
        } else {
            n == (SearchView { loading: true, error: None, ..s }) && (r.0 matches Some(
                Request::Search { query, generation },
            ) && query@ == s.query && generation == g)
        },
        Message::ResultsLoaded(g, result) => r.0 is None && if g != s.generation {
            n == s && r.1@.len() == 0
        } else {
            match result {
                Ok(res) => n == (SearchView {
                    loading: false,
                    results: Some(res),
                    error: None,
                    ..s
                }) && only_images(r.1@, result_images(res)),
                Err(e) => n == (SearchView { loading: false, error: Some(e@), ..s }) && r.1@.len()
                    == 0,
            }
        },
        Message::TrackClicked(id) => n == s && r.0 is None && r.1@ == seq![
            ScreenEffect::PlayTrack(id),
        ],
        Message::PlayNext(id) => n == s && r.0 is None && r.1@ == seq![
            ScreenEffect::Enqueue(id, QueuePosition::Next),
        ],
        Message::AddLast(id) => n == s && r.0 is None && r.1@ == seq![
            ScreenEffect::Enqueue(id, QueuePosition::Last),
        ],
        Message::EntityClicked(entity) => n == s && r.0 is None && r.1@.len() == 1 && (
        r.1@[0] matches ScreenEffect::Navigate(e) && e@ == entity@),
    }
}

impl<T, A, R, P> State<T, A, R, P> {
    pub fn new() -> (r: State<T, A, R, P>)
        ensures
            r@ == (SearchView::<T, A, R, P> {
                query: Seq::empty(),
                filter: TypeFilter::All,
                results: None,
                loading: false,
                error: None,
                generation: 0,
            }),
    {
        State {
            query: String::new(),
            filter: TypeFilter::All,
            results: None,
            loading: false,
            error: None,
            generation: 0,
        }
    }

    pub fn update(&mut self, message: Message<T, A, R, P>) -> (r: (Option<Request>, Vec<ScreenEffect>))
        requires
            message is QueryChanged ==> old(self).generation < u64::MAX,
        ensures
            step(old(self)@, message, final(self)@, r),
    {
        match message {
            Message::QueryChanged(query) => {
                self.query = query;
                self.generation = self.generation + 1;
                let generation = self.generation;
                if blank(self.query.as_str()) {
                    self.results = None;
                    self.loading = false;
                    return (None, Vec::new());
                }
                (Some(Request::Debounce { generation }), Vec::new())
            },
            Message::FilterChanged(filter) => {
                self.filter = filter;
                (None, Vec::new())
            },
            Message::Debounced(generation) => {
                if generation != self.generation || blank(self.query.as_str()) {
                    return (None, Vec::new());
                }
                self.loading = true;
                self.error = None;
                let query = self.query.clone();
                (Some(Request::Search { query, generation }), Vec::new())
            },
            Message::ResultsLoaded(generation, result) => {
                if generation != self.generation {
                    return (None, Vec::new());
                }
                self.loading = false;
                match result {
                    Ok(results) => {
                        let images = results_images(&results);
                        self.results = Some(results);
                        self.error = None;
                        (None, one(ScreenEffect::ImagesNeeded(images)))
                    },
                    Err(e) => {
                        self.error = Some(e);
                        (None, Vec::new())
                    },
                }
            },
            Message::TrackClicked(id) => (None, one(ScreenEffect::PlayTrack(id))),
            Message::PlayNext(id) => (None, one(ScreenEffect::Enqueue(id, QueuePosition::Next))),
            Message::AddLast(id) => (None, one(ScreenEffect::Enqueue(id, QueuePosition::Last))),
            Message::EntityClicked(entity) => (None, one(ScreenEffect::Navigate(entity))),
        }
    }
}

/// Once the query has changed, a debounce tick or a result of the search
/// that was current before the change is dropped: the state stays as it is
/// and nothing is asked or shown.
pub proof fn law_stale_generation_is_dropped<T, A, R, P>(
    s: SearchView<T, A, R, P>,
    q: String,
    n1: SearchView<T, A, R, P>,
    r1: (Option<Request>, Vec<ScreenEffect>),
    late: Message<T, A, R, P>,
    n2: SearchView<T, A, R, P>,
    r2: (Option<Request>, Vec<ScreenEffect>),
)
    requires
        s.generation < u64::MAX,
        step(s, Message::QueryChanged(q), n1, r1),
        late matches Message::Debounced(g) ==> g == s.generation,
        late matches Message::ResultsLoaded(g, _) ==> g == s.generation,
        late is Debounced || late is ResultsLoaded,
        step(n1, late, n2, r2),
    ensures
        n2 == n1,
        r2.0 is None,
        r2.1@.len() == 0,
{
}

/// A search only runs for the current query: a debounce tick that starts
/// one names the current generation and asks for the current text.
pub proof fn law_search_uses_current_query<T, A, R, P>(
    s: SearchView<T, A, R, P>,
    g: u64,
    n: SearchView<T, A, R, P>,
    r: (Option<Request>, Vec<ScreenEffect>),
)
    requires
        step(s, Message::Debounced(g), n, r),
        r.0 is Some,
    ensures
        g == s.generation,
        trim(s.query).len() > 0,
        r.0 matches Some(Request::Search { query, generation }) && query@ == s.query && generation
            == s.generation,
{
}

/// Whether results of `kind` appear on a page filtered by `filter`: the
/// filter admits them and there is at least one.
pub open spec fn kind_visible(filter: TypeFilter, kind: TypeFilter, count: nat) -> bool {
    (filter == TypeFilter::All || filter == kind) && count > 0
}

proof fn lemma_push_contains(s: Seq<TypeFilter>, a: TypeFilter, b: TypeFilter)
    ensures
        s.push(a).contains(b) <==> (s.contains(b) || a == b),
{
    if s.contains(b) {
        let i = choose|i: int| 0 <= i < s.len() && s[i] == b;
        assert(s.push(a)[i] == b);
    }
    if a == b {
        assert(s.push(a)[s.len() as int] == b);
    }
    if s.push(a).contains(b) {
        let i = choose|i: int| 0 <= i < s.push(a).len() && s.push(a)[i] == b;
        if i < s.len() {
            assert(s[i] == b);
        }
    }
}

/// A search page shows a group for a kind of result exactly when the
/// filter admits that kind and there is at least one such result: under
/// All every non-empty kind shows, tracks before albums before artists
/// before playlists; under a single kind only that kind can show.
pub proof fn law_shown_groups_follow_the_filter<T, A, R, P>(
    filter: TypeFilter,
    r: SearchResults<T, A, R, P>,
)
    ensures
        groups_shown(filter, r).contains(TypeFilter::Tracks) <==> kind_visible(
            filter,
            TypeFilter::Tracks,
            r.tracks@.len(),
        ),
        groups_shown(filter, r).contains(TypeFilter::Albums) <==> kind_visible(
            filter,
            TypeFilter::Albums,
            r.albums@.len(),
        ),
        groups_shown(filter, r).contains(TypeFilter::Artists) <==> kind_visible(
            filter,
            TypeFilter::Artists,
            r.artists@.len(),
        ),
        groups_shown(filter, r).contains(TypeFilter::Playlists) <==> kind_visible(
            filter,
            TypeFilter::Playlists,
            r.playlists@.len(),
        ),
        !groups_shown(filter, r).contains(TypeFilter::All),
        forall|i: int, j: int|
            0 <= i < j < groups_shown(filter, r).len() ==> rank(groups_shown(filter, r)[i]) < rank(
                groups_shown(filter, r)[j],
            ),
{
    let e: Seq<TypeFilter> = Seq::empty();
    let g1 = with_group(e, filter, TypeFilter::Tracks, r.tracks@.len());
    let g2 = with_group(g1, filter, TypeFilter::Albums, r.albums@.len());
    let g3 = with_group(g2, filter, TypeFilter::Artists, r.artists@.len());
    let g4 = with_group(g3, filter, TypeFilter::Playlists, r.playlists@.len());
    assert(g4 == groups_shown(filter, r));
    let kinds = seq![
        TypeFilter::All,
        TypeFilter::Tracks,
        TypeFilter::Albums,
        TypeFilter::Artists,
        TypeFilter::Playlists,
    ];
    assert forall|k: TypeFilter| kinds.contains(k) implies (g4.contains(k) <==> (
    k != TypeFilter::All && (k == TypeFilter::Tracks && kind_visible(
        filter,
        k,
        r.tracks@.len(),
    ) || k == TypeFilter::Albums && kind_visible(filter, k, r.albums@.len()) || k
        == TypeFilter::Artists && kind_visible(filter, k, r.artists@.len()) || k
        == TypeFilter::Playlists && kind_visible(filter, k, r.playlists@.len())))) by {
        lemma_push_contains(e, TypeFilter::Tracks, k);
        lemma_push_contains(g1, TypeFilter::Albums, k);
        lemma_push_contains(g2, TypeFilter::Artists, k);
        lemma_push_contains(g3, TypeFilter::Playlists, k);
    }
    assert(kinds[1] == TypeFilter::Tracks);
    assert(kinds[2] == TypeFilter::Albums);
    assert(kinds[3] == TypeFilter::Artists);
    assert(kinds[4] == TypeFilter::Playlists);
    assert(kinds[0] == TypeFilter::All);
    assert(forall|i: int| 0 <= i < g1.len() ==> rank(#[trigger] g1[i]) <= 1);
    assert(forall|i: int| 0 <= i < g2.len() ==> rank(#[trigger] g2[i]) <= 2);
    assert(forall|i: int| 0 <= i < g3.len() ==> rank(#[trigger] g3[i]) <= 3);
    assert(forall|i: int, j: int| 0 <= i < j < g1.len() ==> rank(g1[i]) < rank(g1[j]));
    assert(forall|i: int, j: int| 0 <= i < j < g2.len() ==> rank(g2[i]) < rank(g2[j]));
    assert(forall|i: int, j: int| 0 <= i < j < g3.len() ==> rank(g3[i]) < rank(g3[j]));
}

} // verus!
