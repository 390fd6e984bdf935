//! The shared per-track action row (play now, play next, add to the end of
//! the queue, favourite toggle, add to playlist), the effects every entity
//! screen reports to the shell, a random shuffle, and the "add to playlist"
//! picker.
use std::collections::hash_map::RandomState;

use vstd::prelude::*;
use vstd::seq_lib::*;

use crate::format::opt_chars;
use crate::nav::EntityRef;
use crate::text::same_text;

verus! {

/// Where an enqueued track goes: right after the current one, or last.
#[derive(Debug, Clone, Copy, PartialEq, Eq)]
pub enum QueuePosition {
    Next,
    Last,
}

/// One action a track row can trigger.
#[derive(Debug, Clone, Copy, PartialEq, Eq)]
pub enum TrackAction {
    PlayNow(u64),
    PlayNext(u64),
    AddLast(u64),
    ToggleFavorite(u64),
    AddToPlaylist(u64),
}

/// What a screen asks the shell to do beyond its own state.
#[derive(Debug, Clone)]
pub enum ScreenEffect {
    /// Replace the queue with these tracks, in order, and play.
    PlayTracks(Vec<u64>),
    /// Play one track now.
    PlayTrack(u64),
    Enqueue(u64, QueuePosition),
    Navigate(EntityRef),
    /// Artwork ids worth prefetching into the image cache.
    ImagesNeeded(Vec<String>),
    OpenAddToPlaylist(u64),
    /// The user deleted the playlist this screen showed.
    Deleted,
}

/// What a track action turns into: an effect for the shell, or a favourite
/// toggle the screen performs (given whether the track is favourited now).
#[derive(Debug, Clone)]
pub enum TrackOutcome {
    Effect(ScreenEffect),
    ToggleFavorite { track_id: u64, currently_favorite: bool },
}

pub open spec fn track_outcome_ok(action: TrackAction, currently: bool, out: TrackOutcome) -> bool {
    match action {
        TrackAction::PlayNow(id) => out matches TrackOutcome::Effect(ScreenEffect::PlayTracks(ids))
            && ids@ == seq![id],
        TrackAction::PlayNext(id) => out matches TrackOutcome::Effect(
            ScreenEffect::Enqueue(t, p),
        ) && t == id && p == QueuePosition::Next,
        TrackAction::AddLast(id) => out matches TrackOutcome::Effect(ScreenEffect::Enqueue(t, p))
            && t == id && p == QueuePosition::Last,
        TrackAction::ToggleFavorite(id) => out == TrackOutcome::ToggleFavorite {
            track_id: id,
            currently_favorite: currently,
        },
        TrackAction::AddToPlaylist(id) => out matches TrackOutcome::Effect(
            ScreenEffect::OpenAddToPlaylist(t),
        ) && t == id,
    }
}

/// The one mapping every track list shares. `currently_favorite` is whether
/// the acted-on track is a favourite right now (only a toggle reads it).
pub fn track_action_outcome(action: TrackAction, currently_favorite: bool) -> (r: TrackOutcome)
    ensures
        track_outcome_ok(action, currently_favorite, r),
{
    match action {
        TrackAction::PlayNow(id) => {
            let ids = vec![id];
            assert(ids@ =~= seq![id]);
            TrackOutcome::Effect(ScreenEffect::PlayTracks(ids))
        },
        TrackAction::PlayNext(id) => TrackOutcome::Effect(
            ScreenEffect::Enqueue(id, QueuePosition::Next),
        ),
        TrackAction::AddLast(id) => TrackOutcome::Effect(
            ScreenEffect::Enqueue(id, QueuePosition::Last),
        ),
        TrackAction::ToggleFavorite(id) => TrackOutcome::ToggleFavorite {
            track_id: id,
            currently_favorite,
        },
        TrackAction::AddToPlaylist(id) => TrackOutcome::Effect(ScreenEffect::OpenAddToPlaylist(id)),
    }
}

/// What a track action does on an entity screen: either a favourite
/// toggle `(track, currently favourite)` for the screen to perform, or one
/// effect for the shell.
pub open spec fn track_result_ok(
    action: TrackAction,
    currently: bool,
    toggle: Option<(u64, bool)>,
    effects: Seq<ScreenEffect>,
) -> bool {
    match action {
        TrackAction::ToggleFavorite(id) => toggle == Some((id, currently)) && effects.len() == 0,
        TrackAction::PlayNow(id) => toggle is None && effects.len() == 1 && (effects[0] matches ScreenEffect::PlayTracks(ids) && ids@ == seq![id]),
        TrackAction::PlayNext(id) => toggle is None && effects.len() == 1 && (effects[0] matches ScreenEffect::Enqueue(t, p) && t == id && p == QueuePosition::Next),
        TrackAction::AddLast(id) => toggle is None && effects.len() == 1 && (effects[0] matches ScreenEffect::Enqueue(t, p) && t == id && p == QueuePosition::Last),
        TrackAction::AddToPlaylist(id) => toggle is None && effects.len() == 1 && (effects[0] matches ScreenEffect::OpenAddToPlaylist(t) && t == id),
    }
}

/// Runs a track action for a screen: the favourite toggle to perform, if
/// any, and the effects for the shell.
pub fn run_track_action(action: TrackAction, currently_favorite: bool) -> (r: (Option<(u64, bool)>, Vec<ScreenEffect>))
    ensures
        track_result_ok(action, currently_favorite, r.0, r.1@),
{
    match track_action_outcome(action, currently_favorite) {
        TrackOutcome::ToggleFavorite { track_id, currently_favorite } => (Some((track_id, currently_favorite)), Vec::new()),
        TrackOutcome::Effect(e) => {
            let mut v: Vec<ScreenEffect> = Vec::new();
            v.push(e);
            (None, v)
        },
    }
}

/// The track a track action acts on.
pub open spec fn action_track(action: TrackAction) -> u64 {
    match action {
        TrackAction::PlayNow(id) => id,
        TrackAction::PlayNext(id) => id,
        TrackAction::AddLast(id) => id,
        TrackAction::ToggleFavorite(id) => id,
        TrackAction::AddToPlaylist(id) => id,
    }
}

pub fn track_of(action: TrackAction) -> (r: u64)
    ensures
        r == action_track(action),
{
    match action {
        TrackAction::PlayNow(id) => id,
        TrackAction::PlayNext(id) => id,
        TrackAction::AddLast(id) => id,
        TrackAction::ToggleFavorite(id) => id,
        TrackAction::AddToPlaylist(id) => id,
    }
}

// ---------------------------------------------------------------------------
// Shuffle.

/// A freshly seeded hasher builder (`RandomState::new`), drawing its keys
/// from the operating system.
#[verifier::external_body]
fn fresh_seed() -> RandomState {
    RandomState::new()
}

/// `BuildHasher::hash_one`: the seeded hash of one id. Nothing is promised
/// of the value; it varies from seed to seed.
#[verifier::external_body]
fn seeded_hash(seed: &RandomState, id: u64) -> u64 {
    std::hash::BuildHasher::hash_one(seed, id)
}

/// `sorted` with `p` placed after every leading entry whose key is not
/// greater than its own.
pub open spec fn insert_keyed(sorted: Seq<(u64, u64)>, p: (u64, u64)) -> Seq<(u64, u64)>
    decreases sorted.len(),
{
    if sorted.len() == 0 {
        seq![p]
    } else if sorted[0].0 <= p.0 {
        seq![sorted[0]] + insert_keyed(sorted.drop_first(), p)
    } else {
        seq![p] + sorted
    }
}

/// `(key, id)` pairs stably sorted by key: ascending keys, and pairs with
/// equal keys in the order they came in.
pub open spec fn keyed_order(pairs: Seq<(u64, u64)>) -> Seq<(u64, u64)>
    decreases pairs.len(),
{
    if pairs.len() == 0 {
        Seq::empty()
    } else {
        insert_keyed(keyed_order(pairs.drop_last()), pairs.last())
    }
}

/// The ids of `(key, id)` pairs, in order.
pub open spec fn ids_of(pairs: Seq<(u64, u64)>) -> Seq<u64> {
    pairs.map_values(|p: (u64, u64)| p.1)
}

/// Each id paired with the key at the same position.
pub open spec fn with_keys(ids: Seq<u64>, keys: Seq<u64>) -> Seq<(u64, u64)> {
    Seq::new(ids.len(), |i: int| (keys[i], ids[i]))
}

proof fn lemma_insert_keyed_at(s: Seq<(u64, u64)>, p: (u64, u64), pos: int)
    requires
        0 <= pos <= s.len(),
        forall|j: int| 0 <= j < pos ==> #[trigger] s[j].0 <= p.0,
        pos < s.len() ==> s[pos].0 > p.0,
    ensures
        insert_keyed(s, p) == s.take(pos).push(p) + s.skip(pos),
    decreases s.len(),
{
    if s.len() == 0 {
        assert(s.take(pos).push(p) + s.skip(pos) =~= seq![p]);
    } else if s[0].0 <= p.0 {
        let t = s.drop_first();
        assert(pos > 0);
        assert forall|j: int| 0 <= j < pos - 1 implies #[trigger] t[j].0 <= p.0 by {
            assert(t[j] == s[j + 1]);
        }
        lemma_insert_keyed_at(t, p, pos - 1);
        assert(s.take(pos).push(p) + s.skip(pos) =~= seq![s[0]] + (t.take(pos - 1).push(p)
            + t.skip(pos - 1)));
    } else {
        assert(pos == 0);
        assert(s.take(0).push(p) + s.skip(0) =~= seq![p] + s);
    }
}

/// The ids of `(key, id)` pairs, stably sorted by key. Every id is kept,
/// exactly as often as it occurs.
pub fn order_by_keys(keyed: &Vec<(u64, u64)>) -> (r: Vec<u64>)
    ensures
        r@ == ids_of(keyed_order(keyed@)),
        r@.to_multiset() == ids_of(keyed@).to_multiset(),
{
    broadcast use group_to_multiset_ensures;

    let mut sorted: Vec<(u64, u64)> = Vec::new();
    let mut i: usize = 0;
    while i < keyed.len()
        invariant
            i <= keyed@.len(),
            sorted@ == keyed_order(keyed@.take(i as int)),
            ids_of(sorted@).to_multiset() == ids_of(keyed@.take(i as int)).to_multiset(),
        decreases keyed.len() - i,
    {
        let p = keyed[i];
        let mut pos: usize = 0;
        while pos < sorted.len() && sorted[pos].0 <= p.0
            invariant
                pos <= sorted@.len(),
                forall|j: int| 0 <= j < pos ==> #[trigger] sorted@[j].0 <= p.0,
            decreases sorted.len() - pos,
        {
            pos = pos + 1;
        }
        let ghost before = sorted@;
        sorted.insert(pos, p);
        proof {
            lemma_insert_keyed_at(before, p, pos as int);
            let t = keyed@.take(i + 1);
            assert(t.drop_last() =~= keyed@.take(i as int));
            assert(t.last() == p);
            assert(sorted@ =~= before.take(pos as int).push(p) + before.skip(pos as int));
            assert(ids_of(sorted@) =~= ids_of(before).insert(pos as int, p.1));
            to_multiset_insert(ids_of(before), pos as int, p.1);
            assert(ids_of(t) =~= ids_of(keyed@.take(i as int)).push(p.1));
            to_multiset_build(ids_of(keyed@.take(i as int)), p.1);
        }
        i = i + 1;
    }
    assert(keyed@.take(keyed@.len() as int) =~= keyed@);
    let mut out: Vec<u64> = Vec::new();
    let mut k: usize = 0;
    while k < sorted.len()
        invariant
            k <= sorted@.len(),
            out@ =~= ids_of(sorted@).take(k as int),
        decreases sorted.len() - k,
    {
        out.push(sorted[k].1);
        k = k + 1;
    }
    assert(out@ =~= ids_of(sorted@));
    out
}

/// The ids in a random order: each id gets the key that a freshly seeded
/// hash gives it, and the ids are stably sorted by those keys. The keys rest
/// on a seed drawn from the operating system, so nothing fixes them: what
/// holds of every outcome is that the result is the ids ordered by some
/// key per position, every id kept exactly as often as it occurs.
pub fn shuffled(ids: Vec<u64>) -> (r: Vec<u64>)
    ensures
        exists|keys: Seq<u64>|
            keys.len() == ids@.len() && r@ == ids_of(keyed_order(#[trigger] with_keys(ids@, keys))),
        r@.to_multiset() == ids@.to_multiset(),
        r@.len() == ids@.len(),
{
    broadcast use group_to_multiset_ensures;

    let seed = fresh_seed();
    let mut keyed: Vec<(u64, u64)> = Vec::new();
    let ghost mut keys: Seq<u64> = Seq::empty();
    let mut i: usize = 0;
    while i < ids.len()
        invariant
            i <= ids@.len(),
            keys.len() == i,
            keyed@ =~= with_keys(ids@.take(i as int), keys),
        decreases ids.len() - i,
    {
        let id = ids[i];
        let key = seeded_hash(&seed, id);
        keyed.push((key, id));
        proof {
            keys = keys.push(key);
        }
        i = i + 1;
    }
    assert(ids@.take(ids@.len() as int) =~= ids@);
    assert(ids_of(keyed@) =~= ids@);
    let r = order_by_keys(&keyed);
    proof {
        r@.to_multiset_ensures();
        ids@.to_multiset_ensures();
    }
    r
}

// ---------------------------------------------------------------------------
// The "add to playlist" picker.

/// A playlist the picker offers: its uuid (when it has one) and title.
#[derive(Debug, Clone)]
pub struct PlaylistChoice {
    pub uuid: Option<String>,
    pub title: String,
}

/// The modal picker state.
pub struct PickerState {
    pub track_id: u64,
    pub playlists: Vec<PlaylistChoice>,
    pub loading: bool,
    pub error: Option<String>,
    pub adding_uuid: Option<String>,
    pub added_to: Option<String>,
}

#[derive(Debug)]
pub enum PickerMessage {
    Loaded(Result<Vec<PlaylistChoice>, String>),
    Choose(String),
    Added(String, Result<(), String>),
    Close,
}

/// Work the picker needs done outside its own state.
#[derive(Debug, Clone)]
pub enum PickerRequest {
    /// Fetch every playlist the user owns or has favourited.
    LoadPlaylists,
    /// Add `track_id` to playlist `uuid`; report back under `title`.
    AddTrack { uuid: String, track_id: u64, title: String },
}

#[derive(Debug, Clone, Copy, PartialEq, Eq)]
pub enum PickerEffect {
    Close,
}

/// The title of the first playlist whose uuid is `uuid`, or empty.
pub open spec fn title_for(playlists: Seq<PlaylistChoice>, uuid: Seq<char>) -> Seq<char>
    decreases playlists.len(),
{
    if playlists.len() == 0 {
        Seq::empty()
    } else if opt_chars(playlists[0].uuid) == Some(uuid) {
        playlists[0].title@
    } else {
        title_for(playlists.drop_first(), uuid)
    }
}

fn find_title(playlists: &Vec<PlaylistChoice>, uuid: &str) -> (r: String)
    ensures
        r@ == title_for(playlists@, uuid@),
{
    let mut i: usize = 0;
    assert(playlists@.subrange(0, playlists@.len() as int) =~= playlists@);
    while i < playlists.len()
        invariant
            i <= playlists@.len(),
            title_for(playlists@, uuid@) == title_for(
                playlists@.subrange(i as int, playlists@.len() as int),
                uuid@,
            ),
        decreases playlists.len() - i,
    {
        let ghost rest = playlists@.subrange(i as int, playlists@.len() as int);
        assert(rest[0] == playlists@[i as int]);
        assert(rest.drop_first() =~= playlists@.subrange(i + 1, playlists@.len() as int));
        match &playlists[i].uuid {
            Some(u) => {
                if same_text(u.as_str(), uuid) {
                    return playlists[i].title.clone();
                }
            },
            None => {},
        }
        i = i + 1;
    }
    String::new()
}

/// One row of the picker's list: a playlist that has a uuid, its label
/// (with an ellipsis while adding to it) and whether it is busy.
#[derive(Debug, Clone)]
pub struct PickerRow {
    pub uuid: String,
    pub label: String,
    pub busy: bool,
}

pub struct RowView {
    pub uuid: Seq<char>,
    pub label: Seq<char>,
    pub busy: bool,
}

impl View for PickerRow {
    type V = RowView;

    open spec fn view(&self) -> RowView {
        RowView { uuid: self.uuid@, label: self.label@, busy: self.busy }
    }
}

pub open spec fn rows_view(rows: Seq<PickerRow>) -> Seq<RowView> {
    rows.map_values(|r: PickerRow| r@)
}

/// The picker's rows for `playlists` while adding to `adding` (if any).
pub open spec fn picker_rows(playlists: Seq<PlaylistChoice>, adding: Option<Seq<char>>) -> Seq<
    RowView,
>
    decreases playlists.len(),
{
    if playlists.len() == 0 {
        Seq::empty()
    } else {
        let rest = picker_rows(playlists.drop_last(), adding);
        let p = playlists.last();
        match p.uuid {
            Some(u) => {
                let busy = adding == Some(u@);
                let label = if busy {
                    p.title@ + "…"@
                } else {
                    p.title@
                };
                rest.push(RowView { uuid: u@, label, busy })
            },
            None => rest,
        }
    }
}

impl PickerState {
    /// Opens the picker for `track_id`, asking for the playlist list.
    pub fn open(track_id: u64) -> (r: (PickerState, PickerRequest))
        ensures
            r.0.track_id == track_id,
            r.0.playlists@.len() == 0,
            r.0.loading,
            r.0.error is None,
            r.0.adding_uuid is None,
            r.0.added_to is None,
            r.1 is LoadPlaylists,
    {
        (
            PickerState {
                track_id,
                playlists: Vec::new(),
                loading: true,
                error: None,
                adding_uuid: None,
                added_to: None,
            },
            PickerRequest::LoadPlaylists,
        )
    }

    pub fn update(&mut self, message: PickerMessage) -> (r: (Option<PickerRequest>, Option<PickerEffect>))
        ensures
            final(self).track_id == old(self).track_id,
            match message {
                PickerMessage::Loaded(Ok(playlists)) => {
                    &&& final(self).playlists@ == playlists@
                    &&& !final(self).loading
                    &&& final(self).error == old(self).error
                    &&& final(self).adding_uuid == old(self).adding_uuid
                    &&& final(self).added_to == old(self).added_to
                    &&& r == (None::<PickerRequest>, None::<PickerEffect>)
                },
                PickerMessage::Loaded(Err(e)) => {
                    &&& final(self).playlists@ == old(self).playlists@
                    &&& !final(self).loading
                    &&& final(self).error == Some(e)
                    &&& final(self).adding_uuid == old(self).adding_uuid
                    &&& final(self).added_to == old(self).added_to
                    &&& r == (None::<PickerRequest>, None::<PickerEffect>)
                },
                PickerMessage::Choose(uuid) => {
                    &&& final(self).playlists@ == old(self).playlists@
                    &&& final(self).loading == old(self).loading
                    &&& final(self).error is None
                    &&& opt_chars(final(self).adding_uuid) == Some(uuid@)
                    &&& final(self).added_to == old(self).added_to
                    &&& r.1 is None
                    &&& r.0 matches Some(PickerRequest::AddTrack { uuid: u, track_id, title })
                        && u@ == uuid@ && track_id == old(self).track_id && title@ == title_for(
                        old(self).playlists@,
                        uuid@,
                    )
                },
                PickerMessage::Added(title, Ok(())) => {
                    &&& final(self).playlists@ == old(self).playlists@
                    &&& final(self).loading == old(self).loading
                    &&& final(self).error == old(self).error
                    &&& final(self).adding_uuid is None
                    &&& final(self).added_to == Some(title)
                    &&& r == (None::<PickerRequest>, None::<PickerEffect>)
                },
                PickerMessage::Added(_, Err(e)) => {
                    &&& final(self).playlists@ == old(self).playlists@
                    &&& final(self).loading == old(self).loading
                    &&& final(self).error == Some(e)
                    &&& final(self).adding_uuid is None
                    &&& final(self).added_to == old(self).added_to
                    &&& r == (None::<PickerRequest>, None::<PickerEffect>)
                },
                PickerMessage::Close => {
                    &&& final(self).playlists@ == old(self).playlists@
                    &&& final(self).loading == old(self).loading
                    &&& final(self).error == old(self).error
                    &&& final(self).adding_uuid == old(self).adding_uuid
                    &&& final(self).added_to == old(self).added_to
                    &&& r == (None::<PickerRequest>, Some(PickerEffect::Close))
                },
            },
    {
        match message {
            PickerMessage::Loaded(Ok(playlists)) => {
                self.loading = false;
                self.playlists = playlists;
                (None, None)
            },
            PickerMessage::Loaded(Err(e)) => {
                self.loading = false;
                self.error = Some(e);
                (None, None)
            },
            PickerMessage::Choose(uuid) => {
                self.error = None;
                let title = find_title(&self.playlists, uuid.as_str());
                self.adding_uuid = Some(uuid.clone());
                (
                    Some(PickerRequest::AddTrack { uuid, track_id: self.track_id, title }),
                    None,
                )
            },
            PickerMessage::Added(title, Ok(())) => {
                self.adding_uuid = None;
                self.added_to = Some(title);
                (None, None)
            },
            PickerMessage::Added(_, Err(e)) => {
                self.adding_uuid = None;
                self.error = Some(e);
                (None, None)
            },
            PickerMessage::Close => (None, Some(PickerEffect::Close)),
        }
    }

    /// The rows the picker lists: each playlist with a uuid, in order.
    pub fn rows(&self) -> (r: Vec<PickerRow>)
        ensures
            rows_view(r@) == picker_rows(self.playlists@, opt_chars(self.adding_uuid)),
    {
        let mut rows: Vec<PickerRow> = Vec::new();
        let mut i: usize = 0;
        while i < self.playlists.len()
            invariant
                i <= self.playlists@.len(),
                rows_view(rows@) == picker_rows(
                    self.playlists@.subrange(0, i as int),
                    opt_chars(self.adding_uuid),
                ),
            decreases self.playlists.len() - i,
        {
            let ghost before = rows@;
            proof {
                let t = self.playlists@.subrange(0, i + 1);
                assert(t.drop_last() =~= self.playlists@.subrange(0, i as int));
                assert(t.last() == self.playlists@[i as int]);
            }
            let p = &self.playlists[i];
            match &p.uuid {
                Some(u) => {
                    let busy = match &self.adding_uuid {
                        Some(a) => same_text(a.as_str(), u.as_str()),
                        None => false,
                    };
                    let label = if busy {
                        let mut l = p.title.clone();
                        l.append("…");
                        l
                    } else {
                        p.title.clone()
                    };
                    let row = PickerRow { uuid: u.clone(), label, busy };
                    rows.push(row);
                    assert(rows_view(rows@) =~= rows_view(before).push(row@));
                },
                None => {},
            }
            i = i + 1;
        }
        assert(self.playlists@.subrange(0, self.playlists@.len() as int) =~= self.playlists@);
        rows
    }
}

} // verus!
