//! The Mix entity page's state: title, items, play-all and the per-track
//! actions.
use std::collections::HashSet;

use vstd::prelude::*;

use crate::actions::{run_track_action, track_result_ok, ScreenEffect, TrackAction};
use crate::album::{err_text, one};
use crate::favorites::{apply_favorite, entry_tracks, is_favorite, no_favorites, track_ids, Entry};
use crate::format::opt_chars;
use crate::nav::EntityRef;

verus! {

pub struct State<E> {
    pub mix_id: String,
    pub title: Option<String>,
    pub items: Vec<Entry<E>>,
    pub favorite_tracks: HashSet<u64>,
    pub loading: bool,
    pub error: Option<String>,
}

pub struct MixView<E> {
    pub mix_id: Seq<char>,
    pub title: Option<Seq<char>>,
    pub items: Seq<Entry<E>>,
    pub favorite_tracks: Set<u64>,
    pub loading: bool,
    pub error: Option<Seq<char>>,
}

impl<E> View for State<E> {
    type V = MixView<E>;

    open spec fn view(&self) -> MixView<E> {
        MixView {
            mix_id: self.mix_id@,
            title: opt_chars(self.title),
            items: self.items@,
            favorite_tracks: self.favorite_tracks@,
            loading: self.loading,
            error: opt_chars(self.error),
        }
    }
}

#[derive(Debug)]
pub enum Message<E> {
    TitleLoaded(Result<Option<String>, String>),
    ItemsLoaded(Result<Vec<Entry<E>>, String>),
    FavoritesLoaded(Result<HashSet<u64>, String>),
    TrackFavoriteToggled(Result<(u64, bool), String>),
    PlayAll,
    Track(TrackAction),
    Navigate(EntityRef),
}

#[derive(Debug, Clone, Copy, PartialEq, Eq)]
pub enum Request {
    ToggleTrackFavorite { track_id: u64, currently_favorite: bool },
}

/// The page's answer to one message: `n` is the page after `s` handled
/// `message`, and `r` the request and effects it produced.
pub open spec fn mix_step<E>(
    s: MixView<E>,
    message: Message<E>,
    n: MixView<E>,
    r: (Option<Request>, Vec<ScreenEffect>),
) -> bool {
    match message {
        Message::TitleLoaded(Ok(title)) => n == (MixView {
            title: opt_chars(title),
            loading: false,
            ..s
        }) && r.0 is None && r.1@.len() == 0,
        Message::TitleLoaded(Err(e)) => n == (MixView {
            loading: false,
            error: err_text(e),
            ..s
        }) && r.0 is None && r.1@.len() == 0,
        Message::ItemsLoaded(Ok(items)) => n == (MixView {
            items: items@,
            ..s
        }) && r.0 is None && r.1@.len() == 0,
        Message::ItemsLoaded(Err(e)) => n == (MixView {
            error: err_text(e),
            ..s
        }) && r.0 is None && r.1@.len() == 0,
        Message::FavoritesLoaded(Ok(tracks)) => n == (MixView {
            favorite_tracks: tracks@,
            ..s
        }) && r.0 is None && r.1@.len() == 0,
        Message::FavoritesLoaded(Err(_)) => n == s && r.0 is None
            && r.1@.len() == 0,
        Message::TrackFavoriteToggled(Ok((id, now))) => n == (MixView {
            favorite_tracks: if now {
                s.favorite_tracks.insert(id)
            } else {
                s.favorite_tracks.remove(id)
            },
            ..s
        }) && r.0 is None && r.1@.len() == 0,
        Message::TrackFavoriteToggled(Err(e)) => n == (MixView {
            error: err_text(e),
            ..s
        }) && r.0 is None && r.1@.len() == 0,
        Message::PlayAll => n == s && r.0 is None && r.1@.len() == 1
            && (r.1@[0] matches ScreenEffect::PlayTracks(ids) && ids@ == entry_tracks(
            s.items,
        )),
        Message::Track(action) => n == s && exists|t: Option<(u64, bool)>|
            track_result_ok(
                action,
                s.favorite_tracks.contains(crate::actions::action_track(action)),
                t,
                r.1@,
            ) && r.0 == match t {
                Some((id, c)) => Some(
                    Request::ToggleTrackFavorite { track_id: id, currently_favorite: c },
                ),
                None => None::<Request>,
            },
        Message::Navigate(entity) => n == s && r.0 is None
            && r.1@.len() == 1 && (r.1@[0] matches ScreenEffect::Navigate(e) && e@
            == entity@),
    }
}

impl<E> State<E> {
    pub fn new(mix_id: String) -> (r: State<E>)
        ensures
            r@ == (MixView::<E> {
                mix_id: mix_id@,
                title: None,
                items: Seq::empty(),
                favorite_tracks: Set::empty(),
                loading: true,
                error: None,
            }),
    {
        State {
            mix_id,
            title: None,
            items: Vec::new(),
            favorite_tracks: no_favorites(),
            loading: true,
            error: None,
        }
    }

    pub fn mix_id(&self) -> (r: &str)
        ensures
            r@ == self.mix_id@,
    {
        self.mix_id.as_str()
    }

    pub fn update(&mut self, message: Message<E>) -> (r: (Option<Request>, Vec<ScreenEffect>))
        ensures
            mix_step(old(self)@, message, final(self)@, r),
    {
        match message {
            Message::TitleLoaded(Ok(title)) => {
                self.title = title;
                self.loading = false;
                (None, Vec::new())
            },
            Message::TitleLoaded(Err(e)) => {
                self.loading = false;
                self.error = Some(e);
                (None, Vec::new())
            },
            Message::ItemsLoaded(Ok(items)) => {
                self.items = items;
                (None, Vec::new())
            },
            Message::ItemsLoaded(Err(e)) => {
                self.error = Some(e);
                (None, Vec::new())
            },
            Message::FavoritesLoaded(Ok(tracks)) => {
                self.favorite_tracks = tracks;
                (None, Vec::new())
            },
            Message::FavoritesLoaded(Err(_)) => (None, Vec::new()),
            Message::TrackFavoriteToggled(Ok((id, now))) => {
                apply_favorite(&mut self.favorite_tracks, id, now);
                (None, Vec::new())
            },
            Message::TrackFavoriteToggled(Err(e)) => {
                self.error = Some(e);
                (None, Vec::new())
            },
            Message::PlayAll => (None, one(ScreenEffect::PlayTracks(track_ids(&self.items)))),
            Message::Track(action) => {
                let id = crate::actions::track_of(action);
                let currently = is_favorite(&self.favorite_tracks, id);
                let (toggle, effects) = run_track_action(action, currently);
                let req = match toggle {
                    Some((track_id, c)) => Some(
                        Request::ToggleTrackFavorite { track_id, currently_favorite: c },
                    ),
                    None => None,
                };
                (req, effects)
            },
            Message::Navigate(entity) => (None, one(ScreenEffect::Navigate(entity))),
        }
    }
}

proof fn lemma_entry_tracks<E>(items: Seq<Entry<E>>)
    ensures
        entry_tracks(items).len() <= items.len(),
        forall|i: int|
            0 <= i < entry_tracks(items).len() ==> exists|j: int|
                0 <= j < items.len() && (#[trigger] items[j]).track == Some(
                    #[trigger] entry_tracks(items)[i],
                ),
        forall|j: int|
            0 <= j < items.len() && (#[trigger] items[j]).track is Some ==> entry_tracks(
                items,
            ).contains(items[j].track.unwrap()),
    decreases items.len(),
{
    if items.len() > 0 {
        let rest = items.drop_last();
        lemma_entry_tracks(rest);
        let t = entry_tracks(items);
        assert forall|i: int| 0 <= i < t.len() implies exists|j: int|
            0 <= j < items.len() && (#[trigger] items[j]).track == Some(#[trigger] t[i]) by {
            if i < entry_tracks(rest).len() {
                let j = choose|j: int|
                    0 <= j < rest.len() && (#[trigger] rest[j]).track == Some(
                        #[trigger] entry_tracks(rest)[i],
                    );
                assert(items[j] == rest[j]);
            } else {
                assert(items[items.len() - 1].track == Some(t[i]));
            }
        }
        assert forall|j: int| 0 <= j < items.len() && (#[trigger] items[j]).track is Some implies t.contains(
            items[j].track.unwrap(),
        ) by {
            if j < rest.len() {
                assert(rest[j] == items[j]);
                let k = choose|k: int|
                    0 <= k < entry_tracks(rest).len() && entry_tracks(rest)[k]
                        == items[j].track.unwrap();
                assert(t[k] == entry_tracks(rest)[k]);
            } else {
                assert(t[t.len() - 1] == items[j].track.unwrap());
            }
        }
    }
}

/// "Play all" plays the mix's tracks and nothing else: every id it plays
/// is a track of the mix, every track of the mix is played, videos are
/// left out, and the page stays as it was.
pub proof fn law_play_all_plays_the_mix<E>(
    s: MixView<E>,
    n: MixView<E>,
    r: (Option<Request>, Vec<ScreenEffect>),
)
    requires
        mix_step(s, Message::PlayAll, n, r),
    ensures
        n == s,
        r.0 is None,
        r.1@.len() == 1,
        r.1@[0] matches ScreenEffect::PlayTracks(ids) && ids@.len() <= s.items.len() && (forall|
            i: int,
        |
            0 <= i < ids@.len() ==> exists|j: int|
                0 <= j < s.items.len() && (#[trigger] s.items[j]).track == Some(
                    #[trigger] ids@[i],
                )) && (forall|j: int|
            0 <= j < s.items.len() && (#[trigger] s.items[j]).track is Some ==> ids@.contains(
                s.items[j].track.unwrap(),
            )),
{
    lemma_entry_tracks(s.items);
}

/// A confirmed track favourite toggle marks that track as the service
/// answered and leaves every other track's mark as it was.
pub proof fn law_mix_track_favorite_follows_the_answer<E>(
    s: MixView<E>,
    id: u64,
    now: bool,
    n: MixView<E>,
    r: (Option<Request>, Vec<ScreenEffect>),
)
    requires
        mix_step(s, Message::TrackFavoriteToggled(Ok((id, now))), n, r),
    ensures
        n.favorite_tracks.contains(id) == now,
        forall|other: u64|
            other != id ==> (#[trigger] n.favorite_tracks.contains(other)
                == s.favorite_tracks.contains(other)),
        n.items == s.items,
        r.0 is None,
{
}

} // verus!
