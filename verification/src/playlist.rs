//! The Playlist entity page's state: header, paginated items with
//! load-more, play-all, favourite toggles and, for the user's own
//! playlists, rename/describe, remove item, move item up/down and delete
//! with confirmation.
use std::collections::HashSet;

use vstd::prelude::*;

use crate::actions::{run_track_action, track_result_ok, ScreenEffect, TrackAction};
use crate::album::{err_text, one, only_images};
use crate::favorites::{
    apply_favorite, entry_image_ids, entry_images, entry_tracks, is_favorite, no_favorites,
    track_ids, Entry,
};
use crate::format::opt_chars;
use crate::nav::EntityRef;

verus! {

/// The playlist's header: its title, description, cover artwork and what
/// the view renders.
#[derive(Debug, Clone)]
pub struct PlaylistInfo<P> {
    pub title: String,
    pub description: Option<String>,
    pub cover: Option<String>,
    pub data: P,
}

pub struct InfoView<P> {
    pub title: Seq<char>,
    pub description: Option<Seq<char>>,
    pub cover: Option<Seq<char>>,
    pub data: P,
}

impl<P> View for PlaylistInfo<P> {
    type V = InfoView<P>;

    open spec fn view(&self) -> InfoView<P> {
        InfoView {
            title: self.title@,
            description: opt_chars(self.description),
            cover: opt_chars(self.cover),
            data: self.data,
        }
    }
}

/// The rename/describe form while it is open.
#[derive(Debug, Clone)]
pub struct EditState {
    pub title: String,
    pub description: String,
    pub saving: bool,
}

pub struct EditView {
    pub title: Seq<char>,
    pub description: Seq<char>,
    pub saving: bool,
}

impl View for EditState {
    type V = EditView;

    open spec fn view(&self) -> EditView {
        EditView { title: self.title@, description: self.description@, saving: self.saving }
    }
}

pub open spec fn opt_edit(e: Option<EditState>) -> Option<EditView> {
    match e {
        Some(s) => Some(s@),
        None => None,
    }
}

pub open spec fn opt_info<P>(p: Option<PlaylistInfo<P>>) -> Option<InfoView<P>> {
    match p {
        Some(i) => Some(i@),
        None => None,
    }
}

/// A button of a playlist page's header.
#[derive(Debug, Clone, Copy, PartialEq, Eq)]
pub enum HeaderAction {
    PlayAll,
    ToggleFavorite,
    Edit,
    Delete,
}

/// Which of a row's reordering buttons are enabled.
#[derive(Debug, Clone, Copy, PartialEq, Eq)]
pub struct RowEdit {
    pub move_up: bool,
    pub move_down: bool,
}

pub struct State<P, I> {
    pub uuid: String,
    pub playlist: Option<PlaylistInfo<P>>,
    pub items: Vec<Entry<I>>,
    pub has_more: bool,
    pub is_owner: bool,
    pub is_favorite: bool,
    pub favorite_tracks: HashSet<u64>,
    pub loading: bool,
    pub error: Option<String>,
    pub edit: Option<EditState>,
    pub confirm_delete: bool,
    pub deleting: bool,
}

pub struct PlaylistView<P, I> {
    pub uuid: Seq<char>,
    pub playlist: Option<InfoView<P>>,
    pub items: Seq<Entry<I>>,
    pub has_more: bool,
    pub is_owner: bool,
    pub is_favorite: bool,
    pub favorite_tracks: Set<u64>,
    pub loading: bool,
    pub error: Option<Seq<char>>,
    pub edit: Option<EditView>,
    pub confirm_delete: bool,
    pub deleting: bool,
}

impl<P, I> View for State<P, I> {
    type V = PlaylistView<P, I>;

    open spec fn view(&self) -> PlaylistView<P, I> {
        PlaylistView {
            uuid: self.uuid@,
            playlist: opt_info(self.playlist),
            items: self.items@,
            has_more: self.has_more,
            is_owner: self.is_owner,
            is_favorite: self.is_favorite,
            favorite_tracks: self.favorite_tracks@,
            loading: self.loading,
            error: opt_chars(self.error),
            edit: opt_edit(self.edit),
            confirm_delete: self.confirm_delete,
            deleting: self.deleting,
        }
    }
}

#[derive(Debug)]
pub enum Message<P, I> {
    PlaylistLoaded(Result<PlaylistInfo<P>, String>),
    OwnershipChecked(Result<bool, String>),
    ItemsLoaded(Result<(Vec<Entry<I>>, bool), String>),
    FavoritesLoaded(Result<(bool, HashSet<u64>), String>),
    LoadMore,
    PlayAll,
    TogglePlaylistFavorite,
    PlaylistFavoriteToggled(Result<bool, String>),
    TrackFavoriteToggled(Result<(u64, bool), String>),
    Track(TrackAction),
    Navigate(EntityRef),
    StartEdit,
    CancelEdit,
    EditTitleChanged(String),
    EditDescriptionChanged(String),
    SaveEdit,
    EditSaved(Result<(String, String), String>),
    RemoveItem(usize),
    ItemRemoved(usize, Result<(), String>),
    MoveUp(usize),
    MoveDown(usize),
    ItemMoved(usize, usize, Result<(), String>),
    RequestDelete,
    CancelDelete,
    ConfirmDelete,
    Deleted(Result<(), String>),
}

/// Work the page needs done against the playlist it shows.
#[derive(Debug, Clone)]
pub enum Request {
    /// Fetch the page of items that starts at `offset`.
    LoadItems { offset: u32 },
    TogglePlaylistFavorite { currently_favorite: bool },
    ToggleTrackFavorite { track_id: u64, currently_favorite: bool },
    SaveEdit { title: String, description: String },
    RemoveItem { index: usize },
    /// Move the item at `from` so that it ends up at `to`.
    Reorder { from: usize, to: usize },
    Delete,
}

/// Whether a playlist has items past the page that starts at `offset`:
/// the page came back full and the playlist's total, when known, goes
/// beyond it.
pub open spec fn items_have_more(len: usize, offset: u32, page_size: u32, total: Option<u64>) -> bool {
    (len as u32) == page_size && match total {
        Some(t) => offset + page_size < t,
        None => true,
    }
}

pub fn page_has_more(len: usize, offset: u32, page_size: u32, total: Option<u64>) -> (r: bool)
    requires
        offset + page_size <= u32::MAX,
    ensures
        r == items_have_more(len, offset, page_size, total),
{
    (len as u32) == page_size && match total {
        Some(t) => ((offset + page_size) as u64) < t,
        None => true,
    }
}

/// `items` with the entry at `from` moved to position `to`.
pub open spec fn moved<T>(items: Seq<T>, from: int, to: int) -> Seq<T> {
    items.remove(from).insert(to, items[from])
}

/// The request a move from `from` to `to` issues: none when it would stay
/// in place or leave the list.
pub open spec fn move_request(len: int, from: usize, to: usize) -> Option<Request> {
    if from == to || to >= len {
        None
    } else {
        Some(Request::Reorder { from, to })
    }
}

/// A description as the playlist keeps it: an empty one is none.
pub open spec fn kept_description(d: Seq<char>) -> Option<Seq<char>> {
    if d.len() == 0 {
        None
    } else {
        Some(d)
    }
}

pub open spec fn quiet<P, I>(r: (Option<Request>, Vec<ScreenEffect>)) -> bool {
    r.0 is None && r.1@.len() == 0
}

/// The page's answer to one message: `n` is the page after `s` handled
/// `message`, and `r` the request and effects it produced.
pub open spec fn playlist_step<P, I>(
    s: PlaylistView<P, I>,
    message: Message<P, I>,
    n: PlaylistView<P, I>,
    r: (Option<Request>, Vec<ScreenEffect>),
) -> bool {
    match message {
        Message::PlaylistLoaded(Ok(p)) => n == (PlaylistView {
            playlist: Some(p@),
            loading: false,
            error: None,
            ..s
        }) && r.0 is None && only_images(
            r.1@,
            match p@.cover {
                Some(s) => seq![s],
                None => Seq::empty(),
            },
        ),
        Message::PlaylistLoaded(Err(e)) => n == (PlaylistView {
            loading: false,
            error: err_text(e),
            ..s
        }) && quiet::<P, I>(r),
        Message::OwnershipChecked(Ok(owner)) => n == (PlaylistView {
            is_owner: owner,
            ..s
        }) && quiet::<P, I>(r),
        Message::OwnershipChecked(Err(_)) => n == s && quiet::<P, I>(r),
        Message::ItemsLoaded(Ok((items, more))) => n == (PlaylistView {
            items: s.items + items@,
            has_more: more,
            ..s
        }) && r.0 is None && only_images(r.1@, entry_images(items@)),
        Message::ItemsLoaded(Err(e)) => n == (PlaylistView {
            error: err_text(e),
            ..s
        }) && quiet::<P, I>(r),
        Message::FavoritesLoaded(Ok((fav, tracks))) => n == (PlaylistView {
            is_favorite: fav,
            favorite_tracks: tracks@,
            ..s
        }) && quiet::<P, I>(r),
        Message::FavoritesLoaded(Err(_)) => n == s && quiet::<P, I>(r),
        Message::LoadMore => n == s && r.1@.len() == 0 && (r.0 matches Some(
            Request::LoadItems { offset },
        ) && offset == s.items.len() as u32),
        Message::PlayAll => n == s && r.0 is None && r.1@.len() == 1
            && (r.1@[0] matches ScreenEffect::PlayTracks(ids) && ids@ == entry_tracks(
            s.items,
        )),
        Message::TogglePlaylistFavorite => n == s && r.1@.len() == 0
            && (r.0 matches Some(Request::TogglePlaylistFavorite { currently_favorite })
            && currently_favorite == s.is_favorite),
        Message::PlaylistFavoriteToggled(Ok(now)) => n == (PlaylistView {
            is_favorite: now,
            ..s
        }) && quiet::<P, I>(r),
        Message::PlaylistFavoriteToggled(Err(e)) => n == (PlaylistView {
            error: err_text(e),
            ..s
        }) && quiet::<P, I>(r),
        Message::TrackFavoriteToggled(Ok((id, now))) => n == (PlaylistView {
            favorite_tracks: if now {
                s.favorite_tracks.insert(id)
            } else {
                s.favorite_tracks.remove(id)
            },
            ..s
        }) && quiet::<P, I>(r),
        Message::TrackFavoriteToggled(Err(e)) => n == (PlaylistView {
            error: err_text(e),
            ..s
        }) && quiet::<P, I>(r),
        Message::Track(action) => n == s && exists|t: Option<(u64, bool)>|
            track_result_ok(
                action,
                s.favorite_tracks.contains(crate::actions::action_track(action)),
                t,
                r.1@,
            ) && match (t, r.0) {
                (Some((id, c)), Some(Request::ToggleTrackFavorite { track_id, currently_favorite })) =>
                    track_id == id && currently_favorite == c,
                (None, None) => true,
                _ => false,
            },
        Message::Navigate(entity) => n == s && r.0 is None
            && r.1@.len() == 1 && (r.1@[0] matches ScreenEffect::Navigate(e) && e@
            == entity@),
        Message::StartEdit => n == (PlaylistView {
            edit: Some(
                EditView {
                    title: match s.playlist {
                        Some(p) => p.title,
                        None => Seq::empty(),
                    },
                    description: match s.playlist {
                        Some(p) => match p.description {
                            Some(d) => d,
                            None => Seq::empty(),
                        },
                        None => Seq::empty(),
                    },
                    saving: false,
                },
            ),
            ..s
        }) && quiet::<P, I>(r),
        Message::CancelEdit => n == (PlaylistView { edit: None, ..s })
            && quiet::<P, I>(r),
        Message::EditTitleChanged(v) => n == (PlaylistView {
            edit: match s.edit {
                Some(e) => Some(EditView { title: v@, ..e }),
                None => None,
            },
            ..s
        }) && quiet::<P, I>(r),
        Message::EditDescriptionChanged(v) => n == (PlaylistView {
            edit: match s.edit {
                Some(e) => Some(EditView { description: v@, ..e }),
                None => None,
            },
            ..s
        }) && quiet::<P, I>(r),
        Message::SaveEdit => match s.edit {
            Some(e) => n == (PlaylistView {
                edit: Some(EditView { saving: true, ..e }),
                ..s
            }) && r.1@.len() == 0 && (r.0 matches Some(
                Request::SaveEdit { title, description },
            ) && title@ == e.title && description@ == e.description),
            None => n == s && quiet::<P, I>(r),
        },
        Message::EditSaved(Ok((title, description))) => n == (PlaylistView {
            playlist: match s.playlist {
                Some(p) => Some(
                    InfoView {
                        title: title@,
                        description: kept_description(description@),
                        ..p
                    },
                ),
                None => None,
            },
            edit: None,
            ..s
        }) && quiet::<P, I>(r),
        Message::EditSaved(Err(e)) => n == (PlaylistView {
            edit: match s.edit {
                Some(ed) => Some(EditView { saving: false, ..ed }),
                None => None,
            },
            error: err_text(e),
            ..s
        }) && quiet::<P, I>(r),
        Message::RemoveItem(index) => n == s && r.1@.len() == 0 && (
        r.0 matches Some(Request::RemoveItem { index: i }) && i == index),
        Message::ItemRemoved(index, Ok(())) => n == (PlaylistView {
            items: if index < s.items.len() {
                s.items.remove(index as int)
            } else {
                s.items
            },
            ..s
        }) && quiet::<P, I>(r),
        Message::ItemRemoved(_, Err(e)) => n == (PlaylistView {
            error: err_text(e),
            ..s
        }) && quiet::<P, I>(r),
        Message::MoveUp(index) => n == s && r.1@.len() == 0 && r.0
            == move_request(
            s.items.len() as int,
            index,
            if index == 0 {
                0usize
            } else {
                (index - 1) as usize
            },
        ),
        Message::MoveDown(index) => n == s && r.1@.len() == 0 && r.0
            == move_request(s.items.len() as int, index, (index + 1) as usize),
        Message::ItemMoved(from, to, Ok(())) => n == (PlaylistView {
            items: if from < s.items.len() && to < s.items.len() {
                moved(s.items, from as int, to as int)
            } else {
                s.items
            },
            ..s
        }) && quiet::<P, I>(r),
        Message::ItemMoved(_, _, Err(e)) => n == (PlaylistView {
            error: err_text(e),
            ..s
        }) && quiet::<P, I>(r),
        Message::RequestDelete => n == (PlaylistView {
            confirm_delete: true,
            ..s
        }) && quiet::<P, I>(r),
        Message::CancelDelete => n == (PlaylistView {
            confirm_delete: false,
            ..s
        }) && quiet::<P, I>(r),
        Message::ConfirmDelete => n == (PlaylistView {
            deleting: true,
            ..s
        }) && r.1@.len() == 0 && (r.0 matches Some(Request::Delete)),
        Message::Deleted(Ok(())) => n == s && r.0 is None
            && r.1@.len() == 1 && (r.1@[0] matches ScreenEffect::Deleted),
        Message::Deleted(Err(e)) => n == (PlaylistView {
            deleting: false,
            confirm_delete: false,
            error: err_text(e),
            ..s
        }) && quiet::<P, I>(r),
    }
}

impl<P, I> State<P, I> {
    pub fn new(uuid: String) -> (r: State<P, I>)
        ensures
            r@ == (PlaylistView::<P, I> {
                uuid: uuid@,
                playlist: None,
                items: Seq::empty(),
                has_more: false,
                is_owner: false,
                is_favorite: false,
                favorite_tracks: Set::empty(),
                loading: true,
                error: None,
                edit: None,
                confirm_delete: false,
                deleting: false,
            }),
    {
        State {
            uuid,
            playlist: None,
            items: Vec::new(),
            has_more: false,
            is_owner: false,
            is_favorite: false,
            favorite_tracks: no_favorites(),
            loading: true,
            error: None,
            edit: None,
            confirm_delete: false,
            deleting: false,
        }
    }

    pub fn uuid(&self) -> (r: &str)
        ensures
            r@ == self.uuid@,
    {
        self.uuid.as_str()
    }

    /// The ids of the items that are tracks, in order.
    pub fn track_ids(&self) -> (r: Vec<u64>)
        ensures
            r@ == entry_tracks(self.items@),
    {
        track_ids(&self.items)
    }

    /// Asks for a move of the item at `from` to `to`, unless it would stay
    /// in place or fall off the end of the list.
    pub fn move_item(&self, from: usize, to: usize) -> (r: Option<Request>)
        ensures
            r == move_request(self.items@.len() as int, from, to),
    {
        if from == to || to >= self.items.len() {
            None
        } else {
            Some(Request::Reorder { from, to })
        }
    }

    /// The header's buttons, left to right: play all and the favourite
    /// toggle, then, for the playlist's owner only, edit and delete.
    pub fn header_actions(&self) -> (r: Vec<HeaderAction>)
        ensures
            r@ == (if self@.is_owner {
                seq![
                    HeaderAction::PlayAll,
                    HeaderAction::ToggleFavorite,
                    HeaderAction::Edit,
                    HeaderAction::Delete,
                ]
            } else {
                seq![HeaderAction::PlayAll, HeaderAction::ToggleFavorite]
            }),
    {
        let mut r: Vec<HeaderAction> = Vec::new();
        r.push(HeaderAction::PlayAll);
        r.push(HeaderAction::ToggleFavorite);
        if self.is_owner {
            r.push(HeaderAction::Edit);
            r.push(HeaderAction::Delete);
        }
        r
    }

    /// The editing buttons of the row at `index`, for the playlist's owner
    /// only and on track rows only (a video row has no actions): whether
    /// "move up" and "move down" are enabled. "Remove" always is.
    pub fn row_edit(&self, index: usize) -> (r: Option<RowEdit>)
        ensures
            r == (if self@.is_owner && index < self@.items.len()
                && self@.items[index as int].track is Some {
                Some(RowEdit { move_up: index > 0, move_down: index + 1 < self@.items.len() })
            } else {
                None
            }),
    {
        if self.is_owner && index < self.items.len() && self.items[index].track.is_some() {
            Some(RowEdit { move_up: index > 0, move_down: index + 1 < self.items.len() })
        } else {
            None
        }
    }

    /// Applies a confirmed move to the local list.
    pub fn apply_move(&mut self, from: usize, to: usize)
        ensures
            final(self)@ == (PlaylistView {
                items: if from < old(self)@.items.len() && to < old(self)@.items.len() {
                    moved(old(self)@.items, from as int, to as int)
                } else {
                    old(self)@.items
                },
                ..old(self)@
            }),
    {
        if from < self.items.len() && to < self.items.len() {
            let entry = self.items.remove(from);
            self.items.insert(to, entry);
        }
    }

    #[verifier::rlimit(60)]
    pub fn update(&mut self, message: Message<P, I>) -> (r: (Option<Request>, Vec<ScreenEffect>))
        requires
            message matches Message::MoveDown(i) ==> i < usize::MAX,
        ensures
            playlist_step(old(self)@, message, final(self)@, r),
    {
        match message {
            Message::PlaylistLoaded(Ok(p)) => {
                let images = crate::favorites::image_list(&p.cover);
                self.playlist = Some(p);
                self.loading = false;
                self.error = None;
                (None, one(ScreenEffect::ImagesNeeded(images)))
            },
            Message::PlaylistLoaded(Err(e)) => {
                self.loading = false;
                self.error = Some(e);
                (None, Vec::new())
            },
            Message::OwnershipChecked(Ok(owner)) => {
                self.is_owner = owner;
                (None, Vec::new())
            },
            Message::OwnershipChecked(Err(_)) => (None, Vec::new()),
            Message::ItemsLoaded(Ok((items, more))) => {
                let images = entry_image_ids(&items);
                let mut items = items;
                self.items.append(&mut items);
                self.has_more = more;
                (None, one(ScreenEffect::ImagesNeeded(images)))
            },
            Message::ItemsLoaded(Err(e)) => {
                self.error = Some(e);
                (None, Vec::new())
            },
            Message::FavoritesLoaded(Ok((fav, tracks))) => {
                self.is_favorite = fav;
                self.favorite_tracks = tracks;
                (None, Vec::new())
            },
            Message::FavoritesLoaded(Err(_)) => (None, Vec::new()),
            Message::LoadMore => {
                let offset = self.items.len() as u32;
                (Some(Request::LoadItems { offset }), Vec::new())
            },
            Message::PlayAll => (None, one(ScreenEffect::PlayTracks(self.track_ids()))),
            Message::TogglePlaylistFavorite => (
                Some(Request::TogglePlaylistFavorite { currently_favorite: self.is_favorite }),
                Vec::new(),
            ),
            Message::PlaylistFavoriteToggled(Ok(now)) => {
                self.is_favorite = now;
                (None, Vec::new())
            },
            Message::PlaylistFavoriteToggled(Err(e)) => {
                self.error = Some(e);
                (None, Vec::new())
            },
            Message::TrackFavoriteToggled(Ok((id, now))) => {
                apply_favorite(&mut self.favorite_tracks, id, now);
                (None, Vec::new())
            },
            Message::TrackFavoriteToggled(Err(e)) => {
                self.error = Some(e);
                (None, Vec::new())
            },
            Message::Track(action) => {
                let id = crate::actions::track_of(action);
                let currently = is_favorite(&self.favorite_tracks, id);
                let (toggle, effects) = run_track_action(action, currently);
                let req = match toggle {
                    Some((track_id, c)) => Some(
                        Request::ToggleTrackFavorite { track_id, currently_favorite: c },
                    ),
                    None => None,
                };
                (req, effects)
            },
            Message::Navigate(entity) => (None, one(ScreenEffect::Navigate(entity))),
            Message::StartEdit => {
                let (title, description) = match &self.playlist {
                    Some(p) => (
                        p.title.clone(),
                        match &p.description {
                            Some(d) => d.clone(),
                            None => String::new(),
                        },
                    ),
                    None => (String::new(), String::new()),
                };
                self.edit = Some(EditState { title, description, saving: false });
                (None, Vec::new())
            },
            Message::CancelEdit => {
                self.edit = None;
                (None, Vec::new())
            },
            Message::EditTitleChanged(v) => {
                match &mut self.edit {
                    Some(edit) => {
                        edit.title = v;
                    },
                    None => {},
                }
                (None, Vec::new())
            },
            Message::EditDescriptionChanged(v) => {
                match &mut self.edit {
                    Some(edit) => {
                        edit.description = v;
                    },
                    None => {},
                }
                (None, Vec::new())
            },
            Message::SaveEdit => {
                match &mut self.edit {
                    Some(edit) => {
                        edit.saving = true;
                        let title = edit.title.clone();
                        let description = edit.description.clone();
                        (Some(Request::SaveEdit { title, description }), Vec::new())
                    },
                    None => (None, Vec::new()),
                }
            },
            Message::EditSaved(Ok((title, description))) => {
                match &mut self.playlist {
                    Some(p) => {
                        p.title = title;
                        p.description = if description.as_str().is_empty() {
                            None
                        } else {
                            Some(description)
                        };
                    },
                    None => {},
                }
                self.edit = None;
                (None, Vec::new())
            },
            Message::EditSaved(Err(e)) => {
                match &mut self.edit {
                    Some(edit) => {
                        edit.saving = false;
                    },
                    None => {},
                }
                self.error = Some(e);
                (None, Vec::new())
            },
            Message::RemoveItem(index) => (Some(Request::RemoveItem { index }), Vec::new()),
            Message::ItemRemoved(index, Ok(())) => {
                if index < self.items.len() {
                    self.items.remove(index);
                }
                (None, Vec::new())
            },
            Message::ItemRemoved(_, Err(e)) => {
                self.error = Some(e);
                (None, Vec::new())
            },
            Message::MoveUp(index) => {
                let to = if index == 0 {
                    0
                } else {
                    index - 1
                };
                (self.move_item(index, to), Vec::new())
            },
            Message::MoveDown(index) => (self.move_item(index, index + 1), Vec::new()),
            Message::ItemMoved(from, to, Ok(())) => {
                self.apply_move(from, to);
                (None, Vec::new())
            },
            Message::ItemMoved(_, _, Err(e)) => {
                self.error = Some(e);
                (None, Vec::new())
            },
            Message::RequestDelete => {
                self.confirm_delete = true;
                (None, Vec::new())
            },
            Message::CancelDelete => {
                self.confirm_delete = false;
                (None, Vec::new())
            },
            Message::ConfirmDelete => {
                self.deleting = true;
                (Some(Request::Delete), Vec::new())
            },
            Message::Deleted(Ok(())) => (None, one(ScreenEffect::Deleted)),
            Message::Deleted(Err(e)) => {
                self.deleting = false;
                self.confirm_delete = false;
                self.error = Some(e);
                (None, Vec::new())
            },
        }
    }
}

/// Moving an item from `from` to `to` and then back from `to` to `from`
/// gives the earlier order again.
pub proof fn law_move_then_move_back<T>(items: Seq<T>, from: int, to: int)
    requires
        0 <= from < items.len(),
        0 <= to < items.len(),
    ensures
        moved(moved(items, from, to), to, from) == items,
        moved(items, from, to).len() == items.len(),
        moved(items, from, to)[to] == items[from],
{
    let once = moved(items, from, to);
    assert(once[to] == items[from]);
    assert(once.remove(to) =~= items.remove(from));
    assert(moved(once, to, from) =~= items);
}

/// A move keeps every item: the same entries, in a new order.
pub proof fn law_move_keeps_items<T>(items: Seq<T>, from: int, to: int)
    requires
        0 <= from < items.len(),
        0 <= to < items.len(),
    ensures
        moved(items, from, to).to_multiset() == items.to_multiset(),
{
    broadcast use vstd::seq_lib::group_to_multiset_ensures;
    broadcast use vstd::multiset::group_multiset_axioms;

    let rest = items.remove(from);
    let x = items[from];
    let m = moved(items, from, to);
    rest.insert_ensures(to, x);
    assert(m.remove(to) =~= rest);
    assert(m[to] == x);
    assert(m.to_multiset().remove(x) == items.to_multiset().remove(x));
    assert(m.contains(x));
    assert(items.contains(x));
    assert(m.to_multiset() =~= items.to_multiset());
}

/// A confirmed playlist favourite toggle sets the heart to what the
/// service answered and changes nothing else; the next press then asks to
/// flip exactly that answer.
pub proof fn law_playlist_favorite_follows_the_answer<P, I>(
    s: PlaylistView<P, I>,
    now: bool,
    n: PlaylistView<P, I>,
    r: (Option<Request>, Vec<ScreenEffect>),
)
    requires
        playlist_step(s, Message::PlaylistFavoriteToggled(Ok(now)), n, r),
    ensures
        n.is_favorite == now,
        n.items == s.items && n.favorite_tracks == s.favorite_tracks && n.is_owner == s.is_owner,
        r.0 is None,
        forall|n2: PlaylistView<P, I>, r2: (Option<Request>, Vec<ScreenEffect>)|
            #[trigger] playlist_step(n, Message::TogglePlaylistFavorite, n2, r2) ==> r2.0
                == Some(Request::TogglePlaylistFavorite { currently_favorite: now }),
{
}

/// A confirmed track favourite toggle marks that track as the service
/// answered and leaves every other track's mark as it was.
pub proof fn law_playlist_track_favorite_follows_the_answer<P, I>(
    s: PlaylistView<P, I>,
    id: u64,
    now: bool,
    n: PlaylistView<P, I>,
    r: (Option<Request>, Vec<ScreenEffect>),
)
    requires
        playlist_step(s, Message::TrackFavoriteToggled(Ok((id, now))), n, r),
    ensures
        n.favorite_tracks.contains(id) == now,
        forall|other: u64|
            other != id ==> (#[trigger] n.favorite_tracks.contains(other)
                == s.favorite_tracks.contains(other)),
        n.items == s.items,
        r.0 is None,
{
}

/// A confirmed removal takes out exactly the item at that position: the
/// list is one shorter, the items before it stay where they were and the
/// items after it move up by one.
pub proof fn law_removed_item_leaves_the_list<P, I>(
    s: PlaylistView<P, I>,
    index: usize,
    n: PlaylistView<P, I>,
    r: (Option<Request>, Vec<ScreenEffect>),
)
    requires
        playlist_step(s, Message::ItemRemoved(index, Ok(())), n, r),
        index < s.items.len(),
    ensures
        n.items.len() == s.items.len() - 1,
        forall|j: int| 0 <= j < index ==> #[trigger] n.items[j] == s.items[j],
        forall|j: int| index <= j < n.items.len() ==> #[trigger] n.items[j] == s.items[j + 1],
        r.0 is None,
{
}

/// A confirmed move puts the moved item at its new position and keeps
/// every item, each as often as before.
pub proof fn law_moved_item_lands_at_its_target<P, I>(
    s: PlaylistView<P, I>,
    from: usize,
    to: usize,
    n: PlaylistView<P, I>,
    r: (Option<Request>, Vec<ScreenEffect>),
)
    requires
        playlist_step(s, Message::ItemMoved(from, to, Ok(())), n, r),
        from < s.items.len(),
        to < s.items.len(),
    ensures
        n.items.len() == s.items.len(),
        n.items[to as int] == s.items[from as int],
        n.items.to_multiset() == s.items.to_multiset(),
        r.0 is None,
{
    law_move_keeps_items(s.items, from as int, to as int);
    s.items.remove(from as int).insert_ensures(to as int, s.items[from as int]);
}

} // verus!
