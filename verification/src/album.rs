//! The Album entity page's state: the album, its tracks, review, similar
//! albums and favourites; play-all, shuffle, favourite toggles and the
//! per-track actions.
use std::collections::HashSet;

use vstd::prelude::*;

use crate::actions::{run_track_action, shuffled, track_result_ok, ScreenEffect, TrackAction};
use crate::favorites::{apply_favorite, ids_of, image_ids, image_list, images_of, is_favorite, item_ids, no_favorites, strings_view, Item};
use crate::format::{mmss, mmss_text, opt_chars};
use crate::text::{before_first, chars_of, decimal, decimal_string, find_infix, push_str, string_from_chars};
use crate::nav::EntityRef;

verus! {

pub struct State<A, T> {
    pub album_id: u64,
    pub album: Option<Item<A>>,
    pub tracks: Vec<Item<T>>,
    pub review: Option<String>,
    pub similar: Vec<Item<A>>,
    pub favorite_tracks: HashSet<u64>,
    pub is_favorite: bool,
    pub loading: bool,
    pub error: Option<String>,
}

pub struct AlbumView<A, T> {
    pub album_id: u64,
    pub album: Option<Item<A>>,
    pub tracks: Seq<Item<T>>,
    pub review: Option<Seq<char>>,
    pub similar: Seq<Item<A>>,
    pub favorite_tracks: Set<u64>,
    pub is_favorite: bool,
    pub loading: bool,
    pub error: Option<Seq<char>>,
}

impl<A, T> View for State<A, T> {
    type V = AlbumView<A, T>;

    open spec fn view(&self) -> AlbumView<A, T> {
        AlbumView {
            album_id: self.album_id,
            album: self.album,
            tracks: self.tracks@,
            review: opt_chars(self.review),
            similar: self.similar@,
            favorite_tracks: self.favorite_tracks@,
            is_favorite: self.is_favorite,
            loading: self.loading,
            error: opt_chars(self.error),
        }
    }
}

#[derive(Debug)]
pub enum Message<A, T> {
    AlbumLoaded(Result<Item<A>, String>),
    TracksLoaded(Result<Vec<Item<T>>, String>),
    ReviewLoaded(Result<Option<String>, String>),
    SimilarLoaded(Result<Vec<Item<A>>, String>),
    FavoritesLoaded(Result<(bool, HashSet<u64>), String>),
    ToggleAlbumFavorite,
    AlbumFavoriteToggled(Result<bool, String>),
    TrackFavoriteToggled(Result<(u64, bool), String>),
    PlayAll,
    Shuffle,
    Track(TrackAction),
    Navigate(EntityRef),
}

/// Work the page needs done: flip the album's or a track's favourite
/// state, given its current state.
#[derive(Debug, Clone, Copy, PartialEq, Eq)]
pub enum Request {
    ToggleAlbumFavorite { album_id: u64, currently_favorite: bool },
    ToggleTrackFavorite { track_id: u64, currently_favorite: bool },
}

pub open spec fn only_images(effects: Seq<ScreenEffect>, images: Seq<Seq<char>>) -> bool {
    effects.len() == 1 && (effects[0] matches ScreenEffect::ImagesNeeded(v) && strings_view(v@) == images)
}

pub open spec fn err_text(e: String) -> Option<Seq<char>> {
    Some(e@)
}

impl<A, T> State<A, T> {
    pub fn new(album_id: u64) -> (r: State<A, T>)
        ensures
            r@ == (AlbumView::<A, T> {
                album_id,
                album: None,
                tracks: Seq::empty(),
                review: None,
                similar: Seq::empty(),
                favorite_tracks: Set::empty(),
                is_favorite: false,
                loading: true,
                error: None,
            }),
    {
        State {
            album_id,
            album: None,
            tracks: Vec::new(),
            review: None,
            similar: Vec::new(),
            favorite_tracks: no_favorites(),
            is_favorite: false,
            loading: true,
            error: None,
        }
    }

    pub fn album_id(&self) -> (r: u64)
        ensures
            r == self.album_id,
    {
        self.album_id
    }

    /// Every track id, in order.
    pub fn track_ids(&self) -> (r: Vec<u64>)
        ensures
            r@ == ids_of(self.tracks@),
    {
        item_ids(&self.tracks)
    }

    /// The page's answer to one message: `new` is the state after `old`
    /// handled `message`, and `r` the request and effects it produced.
    pub open spec fn update_post(
        old: State<A, T>,
        message: Message<A, T>,
        new: State<A, T>,
        r: (Option<Request>, Vec<ScreenEffect>),
    ) -> bool {
            match message {
                Message::AlbumLoaded(Ok(album)) => new@ == (AlbumView {
                    album: Some(album),
                    loading: false,
                    error: None,
                    ..old@
                }) && r.0 is None && only_images(r.1@, match opt_chars(album.image) {
                    Some(s) => seq![s],
                    None => Seq::empty(),
                }),
                Message::AlbumLoaded(Err(e)) => new@ == (AlbumView {
                    loading: false,
                    error: err_text(e),
                    ..old@
                }) && r.0 is None && r.1@.len() == 0,
                Message::TracksLoaded(Ok(tracks)) => new@ == (AlbumView {
                    tracks: tracks@,
                    ..old@
                }) && r.0 is None && r.1@.len() == 0,
                Message::TracksLoaded(Err(e)) => new@ == (AlbumView {
                    error: err_text(e),
                    ..old@
                }) && r.0 is None && r.1@.len() == 0,
                Message::ReviewLoaded(Ok(review)) => new@ == (AlbumView {
                    review: opt_chars(review),
                    ..old@
                }) && r.0 is None && r.1@.len() == 0,
                Message::ReviewLoaded(Err(_)) => new@ == old@ && r.0 is None
                    && r.1@.len() == 0,
                Message::SimilarLoaded(Ok(similar)) => new@ == (AlbumView {
                    similar: similar@,
                    ..old@
                }) && r.0 is None && only_images(r.1@, images_of(similar@)),
                Message::SimilarLoaded(Err(_)) => new@ == old@ && r.0 is None
                    && r.1@.len() == 0,
                Message::FavoritesLoaded(Ok((fav, tracks))) => new@ == (AlbumView {
                    is_favorite: fav,
                    favorite_tracks: tracks@,
                    ..old@
                }) && r.0 is None && r.1@.len() == 0,
                Message::FavoritesLoaded(Err(_)) => new@ == old@ && r.0 is None
                    && r.1@.len() == 0,
                Message::ToggleAlbumFavorite => new@ == old@ && r.0 == Some(
                    Request::ToggleAlbumFavorite {
                        album_id: old.album_id,
                        currently_favorite: old.is_favorite,
                    },
                ) && r.1@.len() == 0,
                Message::AlbumFavoriteToggled(Ok(now)) => new@ == (AlbumView {
                    is_favorite: now,
                    ..old@
                }) && r.0 is None && r.1@.len() == 0,
                Message::AlbumFavoriteToggled(Err(e)) => new@ == (AlbumView {
                    error: err_text(e),
                    ..old@
                }) && r.0 is None && r.1@.len() == 0,
                Message::TrackFavoriteToggled(Ok((id, now))) => new@ == (AlbumView {
                    favorite_tracks: if now {
                        old@.favorite_tracks.insert(id)
                    } else {
                        old@.favorite_tracks.remove(id)
                    },
                    ..old@
                }) && r.0 is None && r.1@.len() == 0,
                Message::TrackFavoriteToggled(Err(e)) => new@ == (AlbumView {
                    error: err_text(e),
                    ..old@
                }) && r.0 is None && r.1@.len() == 0,
                Message::PlayAll => new@ == old@ && r.0 is None && r.1@.len() == 1
                    && (r.1@[0] matches ScreenEffect::PlayTracks(ids) && ids@ == ids_of(
                    old@.tracks,
                )),
                Message::Shuffle => new@ == old@ && r.0 is None && r.1@.len() == 1
                    && (r.1@[0] matches ScreenEffect::PlayTracks(ids) && ids@.to_multiset()
                    == ids_of(old@.tracks).to_multiset()),
                Message::Track(action) => new@ == old@ && exists|t: Option<(u64, bool)>|
                    track_result_ok(
                        action,
                        old@.favorite_tracks.contains(crate::actions::action_track(action)),
                        t,
                        r.1@,
                    ) && r.0 == match t {
                        Some((id, c)) => Some(
                            Request::ToggleTrackFavorite { track_id: id, currently_favorite: c },
                        ),
                        None => None::<Request>,
                    },
                Message::Navigate(entity) => new@ == old@ && r.0 is None
                    && r.1@.len() == 1 && (r.1@[0] matches ScreenEffect::Navigate(e) && e@
                    == entity@),
            }
    }

    /// The state of a freshly opened page for `album_id`.
    pub open spec fn new_view(album_id: u64) -> AlbumView<A, T> {
        AlbumView::<A, T> {
            album_id,
            album: None,
            tracks: Seq::empty(),
            review: None,
            similar: Seq::empty(),
            favorite_tracks: Set::empty(),
            is_favorite: false,
            loading: true,
            error: None,
        }
    }

    pub fn update(&mut self, message: Message<A, T>) -> (r: (Option<Request>, Vec<ScreenEffect>))
        ensures
            Self::update_post(*old(self), message, *final(self), r),
    {
        match message {
            Message::AlbumLoaded(Ok(album)) => {
                let images = image_list(&album.image);
                self.album = Some(album);
                self.loading = false;
                self.error = None;
                (None, one(ScreenEffect::ImagesNeeded(images)))
            },
            Message::AlbumLoaded(Err(e)) => {
                self.loading = false;
                self.error = Some(e);
                (None, Vec::new())
            },
            Message::TracksLoaded(Ok(tracks)) => {
                self.tracks = tracks;
                (None, Vec::new())
            },
            Message::TracksLoaded(Err(e)) => {
                self.error = Some(e);
                (None, Vec::new())
            },
            Message::ReviewLoaded(Ok(review)) => {
                self.review = review;
                (None, Vec::new())
            },
            Message::ReviewLoaded(Err(_)) => (None, Vec::new()),
            Message::SimilarLoaded(Ok(similar)) => {
                let images = image_ids(&similar);
                self.similar = similar;
                (None, one(ScreenEffect::ImagesNeeded(images)))
            },
            Message::SimilarLoaded(Err(_)) => (None, Vec::new()),
            Message::FavoritesLoaded(Ok((fav, tracks))) => {
                self.is_favorite = fav;
                self.favorite_tracks = tracks;
                (None, Vec::new())
            },
            Message::FavoritesLoaded(Err(_)) => (None, Vec::new()),
            Message::ToggleAlbumFavorite => (
                Some(
                    Request::ToggleAlbumFavorite {
                        album_id: self.album_id,
                        currently_favorite: self.is_favorite,
                    },
                ),
                Vec::new(),
            ),
            Message::AlbumFavoriteToggled(Ok(now)) => {
                self.is_favorite = now;
                (None, Vec::new())
            },
            Message::AlbumFavoriteToggled(Err(e)) => {
                self.error = Some(e);
                (None, Vec::new())
            },
            Message::TrackFavoriteToggled(Ok((id, now))) => {
                apply_favorite(&mut self.favorite_tracks, id, now);
                (None, Vec::new())
            },
            Message::TrackFavoriteToggled(Err(e)) => {
                self.error = Some(e);
                (None, Vec::new())
            },
            Message::PlayAll => (None, one(ScreenEffect::PlayTracks(self.track_ids()))),
            Message::Shuffle => (None, one(ScreenEffect::PlayTracks(shuffled(self.track_ids())))),
            Message::Track(action) => {
                let id = crate::actions::track_of(action);
                let currently = is_favorite(&self.favorite_tracks, id);
                let (toggle, effects) = run_track_action(action, currently);
                let req = match toggle {
                    Some((track_id, c)) => Some(
                        Request::ToggleTrackFavorite { track_id, currently_favorite: c },
                    ),
                    None => None,
                };
                (req, effects)
            },
            Message::Navigate(entity) => (None, one(ScreenEffect::Navigate(entity))),
        }
    }
}

/// The year of a release date: the date up to its first `-`.
pub open spec fn year_of(date: Option<Seq<char>>) -> Seq<char> {
    match date {
        Some(d) => before_first(d, seq!['-']),
        None => Seq::empty(),
    }
}

/// The seconds of the tracks whose length is known, added up.
pub open spec fn total_secs(durations: Seq<Option<u32>>) -> nat
    decreases durations.len(),
{
    if durations.len() == 0 {
        0
    } else {
        total_secs(durations.drop_last()) + match durations.last() {
            Some(d) => d as nat,
            None => 0,
        }
    }
}

/// The header's line under the title: the release year (when there is
/// one), the track count (the album's own, else the tracks listed) and the
/// total length.
pub open spec fn album_meta_text(
    release_date: Option<Seq<char>>,
    number_of_tracks: Option<u32>,
    listed: nat,
    durations: Seq<Option<u32>>,
) -> Seq<char> {
    let year = year_of(release_date);
    let count: u32 = match number_of_tracks {
        Some(n) => n,
        None => listed as u32,
    };
    (if year.len() == 0 {
        Seq::empty()
    } else {
        year + " · "@
    }) + decimal(count as nat) + " tracks · "@ + mmss_text(Some((total_secs(durations) * 1000) as u64))
}

pub fn album_meta(
    release_date: &Option<String>,
    number_of_tracks: Option<u32>,
    durations: &Vec<Option<u32>>,
) -> (r: String)
    requires
        total_secs(durations@) <= u32::MAX,
    ensures
        r@ == album_meta_text(opt_chars(*release_date), number_of_tracks, durations@.len(), durations@),
{
    let mut total: u32 = 0;
    let mut i: usize = 0;
    while i < durations.len()
        invariant
            i <= durations@.len(),
            total == total_secs(durations@.subrange(0, i as int)),
            total_secs(durations@) <= u32::MAX,
        decreases durations.len() - i,
    {
        proof {
            let t = durations@.subrange(0, i + 1);
            assert(t.drop_last() =~= durations@.subrange(0, i as int));
            lemma_total_secs_prefix(durations@, i + 1);
        }
        match durations[i] {
            Some(d) => {
                total = total + d;
            },
            None => {},
        }
        i = i + 1;
    }
    assert(durations@.subrange(0, durations@.len() as int) =~= durations@);
    let year: Vec<char> = match release_date {
        Some(d) => {
            let v = chars_of(d.as_str());
            let mut dash: Vec<char> = Vec::new();
            dash.push('-');
            assert(dash@ =~= seq!['-']);
            match find_infix(&v, &dash) {
                Some(k) => {
                    let mut y: Vec<char> = Vec::new();
                    let mut j: usize = 0;
                    while j < k
                        invariant
                            j <= k,
                            k <= v@.len(),
                            y@ == v@.subrange(0, j as int),
                        decreases k - j,
                    {
                        y.push(v[j]);
                        j = j + 1;
                        assert(y@ =~= v@.subrange(0, j as int));
                    }
                    y
                },
                None => v,
            }
        },
        None => Vec::new(),
    };
    let count: u32 = match number_of_tracks {
        Some(n) => n,
        None => durations.len() as u32,
    };
    let mut out: Vec<char> = Vec::new();
    let mut j: usize = 0;
    while j < year.len()
        invariant
            j <= year@.len(),
            out@ == year@.subrange(0, j as int),
        decreases year.len() - j,
    {
        out.push(year[j]);
        j = j + 1;
        assert(out@ =~= year@.subrange(0, j as int));
    }
    assert(year@.subrange(0, year@.len() as int) =~= year@);
    if year.len() > 0 {
        push_str(" · ", &mut out);
    }
    let c = decimal_string(count as u64);
    push_str(c.as_str(), &mut out);
    push_str(" tracks · ", &mut out);
    let length = mmss(Some(total as u64 * 1000));
    push_str(length.as_str(), &mut out);
    string_from_chars(&out)
}

proof fn lemma_total_secs_prefix(durations: Seq<Option<u32>>, n: int)
    requires
        0 <= n <= durations.len(),
    ensures
        total_secs(durations.subrange(0, n)) <= total_secs(durations),
    decreases durations.len() - n,
{
    if n < durations.len() {
        lemma_total_secs_prefix(durations, n + 1);
        let t = durations.subrange(0, n + 1);
        assert(t.drop_last() =~= durations.subrange(0, n));
    } else {
        assert(durations.subrange(0, n) =~= durations);
    }
}

/// The heading of the biography panel, naming its source when known.
pub open spec fn bio_heading_text(source: Option<Seq<char>>) -> Seq<char> {
    match source {
        Some(s) => "Biography — "@ + s,
        None => "Biography"@,
    }
}

pub fn bio_heading(source: &Option<String>) -> (r: String)
    ensures
        r@ == bio_heading_text(opt_chars(*source)),
{
    let mut out: Vec<char> = Vec::new();
    push_str("Biography", &mut out);
    match source {
        Some(s) => {
            push_str(" — ", &mut out);
            push_str(s.as_str(), &mut out);
            proof {
                reveal_strlit("Biography");
                reveal_strlit(" — ");
                reveal_strlit("Biography — ");
            }
            assert(out@ =~= "Biography — "@ + s@);
        },
        None => {},
    }
    string_from_chars(&out)
}

/// The one-line track count and length of a playlist's header: its own
/// track count, else the items listed.
pub open spec fn playlist_meta_text(number_of_tracks: Option<u32>, listed: nat, duration: Option<u32>) -> Seq<char> {
    let count: u32 = match number_of_tracks {
        Some(n) => n,
        None => listed as u32,
    };
    decimal(count as nat) + " tracks · "@ + mmss_text(match duration {
        Some(d) => Some((d * 1000) as u64),
        None => None,
    })
}

pub fn playlist_meta(number_of_tracks: Option<u32>, listed: usize, duration: Option<u32>) -> (r: String)
    ensures
        r@ == playlist_meta_text(number_of_tracks, listed as nat, duration),
{
    let count: u32 = match number_of_tracks {
        Some(n) => n,
        None => listed as u32,
    };
    let mut out: Vec<char> = Vec::new();
    let c = decimal_string(count as u64);
    push_str(c.as_str(), &mut out);
    push_str(" tracks · ", &mut out);
    let length = mmss(
        match duration {
            Some(d) => Some(d as u64 * 1000),
            None => None,
        },
    );
    push_str(length.as_str(), &mut out);
    string_from_chars(&out)
}

/// A one-element effect list.
pub fn one(e: ScreenEffect) -> (r: Vec<ScreenEffect>)
    ensures
        r@ == seq![e],
{
    let mut v: Vec<ScreenEffect> = Vec::new();
    v.push(e);
    assert(v@ =~= seq![e]);
    v
}

/// A confirmed album favourite toggle sets the heart to what the service
/// answered and changes nothing else; the next press of the heart then asks
/// to flip exactly that answer.
pub proof fn law_album_favorite_follows_the_answer<A, T>(
    old: State<A, T>,
    now: bool,
    new: State<A, T>,
    r: (Option<Request>, Vec<ScreenEffect>),
)
    requires
        State::<A, T>::update_post(old, Message::AlbumFavoriteToggled(Ok(now)), new, r),
    ensures
        new.is_favorite == now,
        new.album_id == old.album_id,
        new.favorite_tracks@ == old.favorite_tracks@,
        new.tracks@ == old.tracks@,
        r.0 is None,
        forall|pressed: State<A, T>, r2: (Option<Request>, Vec<ScreenEffect>)|
            #[trigger] State::<A, T>::update_post(new, Message::ToggleAlbumFavorite, pressed, r2)
                ==> r2.0 == Some(
                Request::ToggleAlbumFavorite { album_id: old.album_id, currently_favorite: now },
            ),
{
}

/// A confirmed track favourite toggle marks that track as the service
/// answered and leaves every other track's mark as it was.
pub proof fn law_track_favorite_follows_the_answer<A, T>(
    old: State<A, T>,
    id: u64,
    now: bool,
    new: State<A, T>,
    r: (Option<Request>, Vec<ScreenEffect>),
)
    requires
        State::<A, T>::update_post(old, Message::TrackFavoriteToggled(Ok((id, now))), new, r),
    ensures
        new.favorite_tracks@.contains(id) == now,
        forall|other: u64|
            other != id ==> (#[trigger] new.favorite_tracks@.contains(other)
                == old.favorite_tracks@.contains(other)),
        new.is_favorite == old.is_favorite,
        r.0 is None,
{
}

/// "Play all" plays every track of the album, in the album's order, and
/// leaves the page as it was.
pub proof fn law_play_all_plays_the_album_in_order<A, T>(
    old: State<A, T>,
    new: State<A, T>,
    r: (Option<Request>, Vec<ScreenEffect>),
)
    requires
        State::<A, T>::update_post(old, Message::PlayAll, new, r),
    ensures
        new@ == old@,
        r.0 is None,
        r.1@.len() == 1,
        r.1@[0] matches ScreenEffect::PlayTracks(ids) && ids@.len() == old.tracks@.len() && (
        forall|i: int| 0 <= i < ids@.len() ==> ids@[i] == (#[trigger] old.tracks@[i]).id),
{
}

} // verus!
