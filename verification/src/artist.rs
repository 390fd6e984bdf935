//! The Artist entity page's state: profile, top tracks, the three album
//! tabs, similar artists, bio, the artist's mix and the follow toggle.
use std::collections::HashSet;

use vstd::prelude::*;

use crate::actions::{run_track_action, track_result_ok, ScreenEffect, TrackAction};
use crate::album::{err_text, one, only_images};
use crate::favorites::{apply_favorite, image_ids, image_list, images_of, is_favorite, no_favorites, Item};
use crate::format::opt_chars;
use crate::nav::EntityRef;

verus! {

/// The artist page's album tabs.
#[derive(Debug, Clone, Copy, PartialEq, Eq)]
pub enum AlbumTab {
    Albums,
    EpsAndSingles,
    Compilations,
}

pub open spec fn tab_text(t: AlbumTab) -> Seq<char> {
    match t {
        AlbumTab::Albums => "Albums"@,
        AlbumTab::EpsAndSingles => "EPs & Singles"@,
        AlbumTab::Compilations => "Compilations"@,
    }
}

impl AlbumTab {
    /// Every tab, in display order.
    pub fn all() -> (r: [AlbumTab; 3])
        ensures
            r@ == seq![AlbumTab::Albums, AlbumTab::EpsAndSingles, AlbumTab::Compilations],
    {
        [AlbumTab::Albums, AlbumTab::EpsAndSingles, AlbumTab::Compilations]
    }

    pub fn label(self) -> (r: &'static str)
        ensures
            r@ == tab_text(self),
    {
        match self {
            AlbumTab::Albums => "Albums",
            AlbumTab::EpsAndSingles => "EPs & Singles",
            AlbumTab::Compilations => "Compilations",
        }
    }
}

pub struct State<P, T, A, B> {
    pub artist_id: u64,
    pub artist: Option<Item<P>>,
    pub top_tracks: Vec<Item<T>>,
    pub albums: Vec<Item<A>>,
    pub eps_singles: Vec<Item<A>>,
    pub compilations: Vec<Item<A>>,
    pub similar: Vec<Item<P>>,
    pub bio: Option<B>,
    pub mix_id: Option<String>,
    pub is_following: bool,
    pub favorite_tracks: HashSet<u64>,
    pub tab: AlbumTab,
    pub loading: bool,
    pub error: Option<String>,
}

pub struct ArtistView<P, T, A, B> {
    pub artist_id: u64,
    pub artist: Option<Item<P>>,
    pub top_tracks: Seq<Item<T>>,
    pub albums: Seq<Item<A>>,
    pub eps_singles: Seq<Item<A>>,
    pub compilations: Seq<Item<A>>,
    pub similar: Seq<Item<P>>,
    pub bio: Option<B>,
    pub mix_id: Option<Seq<char>>,
    pub is_following: bool,
    pub favorite_tracks: Set<u64>,
    pub tab: AlbumTab,
    pub loading: bool,
    pub error: Option<Seq<char>>,
}

impl<P, T, A, B> View for State<P, T, A, B> {
    type V = ArtistView<P, T, A, B>;

    open spec fn view(&self) -> ArtistView<P, T, A, B> {
        ArtistView {
            artist_id: self.artist_id,
            artist: self.artist,
            top_tracks: self.top_tracks@,
            albums: self.albums@,
            eps_singles: self.eps_singles@,
            compilations: self.compilations@,
            similar: self.similar@,
            bio: self.bio,
            mix_id: opt_chars(self.mix_id),
            is_following: self.is_following,
            favorite_tracks: self.favorite_tracks@,
            tab: self.tab,
            loading: self.loading,
            error: opt_chars(self.error),
        }
    }
}

#[derive(Debug)]
pub enum Message<P, T, A, B> {
    ArtistLoaded(Result<Item<P>, String>),
    TopTracksLoaded(Result<Vec<Item<T>>, String>),
    AlbumsLoaded(AlbumTab, Result<Vec<Item<A>>, String>),
    SimilarLoaded(Result<Vec<Item<P>>, String>),
    BioLoaded(Result<Option<B>, String>),
    MixIdLoaded(Result<Option<String>, String>),
    FavoritesLoaded(Result<(bool, HashSet<u64>), String>),
    ToggleFollow,
    FollowToggled(Result<bool, String>),
    TrackFavoriteToggled(Result<(u64, bool), String>),
    TabSelected(AlbumTab),
    PlayArtistMix,
    ArtistMixLoaded(Result<Vec<u64>, String>),
    Track(TrackAction),
    Navigate(EntityRef),
}

#[derive(Debug, Clone)]
pub enum Request {
    ToggleFollow { artist_id: u64, currently_following: bool },
    /// Fetch the track ids of the artist's mix; answer with `ArtistMixLoaded`.
    LoadMixTracks(String),
    ToggleTrackFavorite { track_id: u64, currently_favorite: bool },
}

/// The page's answer to one message: `n` is the page after `s` handled
/// `message`, and `r` the request and effects it produced.
pub open spec fn artist_step<P, T, A, B>(
    s: ArtistView<P, T, A, B>,
    message: Message<P, T, A, B>,
    n: ArtistView<P, T, A, B>,
    r: (Option<Request>, Vec<ScreenEffect>),
) -> bool {
    match message {
        Message::ArtistLoaded(Ok(artist)) => n == (ArtistView {
            artist: Some(artist),
            loading: false,
            error: None,
            ..s
        }) && r.0 is None && only_images(r.1@, match opt_chars(artist.image) {
            Some(s) => seq![s],
            None => Seq::empty(),
        }),
        Message::ArtistLoaded(Err(e)) => n == (ArtistView {
            loading: false,
            error: err_text(e),
            ..s
        }) && r.0 is None && r.1@.len() == 0,
        Message::TopTracksLoaded(Ok(tracks)) => n == (ArtistView {
            top_tracks: tracks@,
            ..s
        }) && r.0 is None && r.1@.len() == 0,
        Message::AlbumsLoaded(tab, Ok(albums)) => n == (match tab {
            AlbumTab::Albums => ArtistView { albums: albums@, ..s },
            AlbumTab::EpsAndSingles => ArtistView { eps_singles: albums@, ..s },
            AlbumTab::Compilations => ArtistView { compilations: albums@, ..s },
        }) && r.0 is None && only_images(r.1@, images_of(albums@)),
        Message::SimilarLoaded(Ok(similar)) => n == (ArtistView {
            similar: similar@,
            ..s
        }) && r.0 is None && only_images(r.1@, images_of(similar@)),
        Message::BioLoaded(Ok(bio)) => n == (ArtistView { bio, ..s })
            && r.0 is None && r.1@.len() == 0,
        Message::MixIdLoaded(Ok(id)) => n == (ArtistView {
            mix_id: opt_chars(id),
            ..s
        }) && r.0 is None && r.1@.len() == 0,
        Message::FavoritesLoaded(Ok((following, tracks))) => n == (
        ArtistView { is_following: following, favorite_tracks: tracks@, ..s })
            && r.0 is None && r.1@.len() == 0,
        Message::ToggleFollow => n == s && (r.0 matches Some(
            Request::ToggleFollow { artist_id, currently_following },
        ) && artist_id == s.artist_id && currently_following == s.is_following) && r.1@.len() == 0,
        Message::FollowToggled(Ok(now)) => n == (ArtistView {
            is_following: now,
            ..s
        }) && r.0 is None && r.1@.len() == 0,
        Message::FollowToggled(Err(e)) => n == (ArtistView {
            error: err_text(e),
            ..s
        }) && r.0 is None && r.1@.len() == 0,
        Message::TrackFavoriteToggled(Ok((id, now))) => n == (ArtistView {
            favorite_tracks: if now {
                s.favorite_tracks.insert(id)
            } else {
                s.favorite_tracks.remove(id)
            },
            ..s
        }) && r.0 is None && r.1@.len() == 0,
        Message::TrackFavoriteToggled(Err(e)) => n == (ArtistView {
            error: err_text(e),
            ..s
        }) && r.0 is None && r.1@.len() == 0,
        Message::TabSelected(tab) => n == (ArtistView { tab, ..s })
            && r.0 is None && r.1@.len() == 0,
        Message::PlayArtistMix => n == s && r.1@.len() == 0
            && match s.mix_id {
            Some(id) => r.0 matches Some(Request::LoadMixTracks(m)) && m@ == id,
            None => r.0 is None,
        },
        Message::ArtistMixLoaded(Ok(ids)) => n == s && r.0 is None
            && r.1@.len() == 1 && (r.1@[0] matches ScreenEffect::PlayTracks(v) && v@
            == ids@),
        Message::ArtistMixLoaded(Err(e)) => n == (ArtistView {
            error: err_text(e),
            ..s
        }) && r.0 is None && r.1@.len() == 0,
        Message::Track(action) => n == s && exists|t: Option<(u64, bool)>|
            track_result_ok(
                action,
                s.favorite_tracks.contains(crate::actions::action_track(action)),
                t,
                r.1@,
            ) && match t {
                Some((id, c)) => r.0 matches Some(
                    Request::ToggleTrackFavorite { track_id, currently_favorite },
                ) && track_id == id && currently_favorite == c,
                None => r.0 is None,
            },
        Message::Navigate(entity) => n == s && r.0 is None
            && r.1@.len() == 1 && (r.1@[0] matches ScreenEffect::Navigate(e) && e@
            == entity@),
        _ => n == s && r.0 is None && r.1@.len() == 0,
    }
}

impl<P, T, A, B> State<P, T, A, B> {
    pub fn new(artist_id: u64) -> (r: State<P, T, A, B>)
        ensures
            r@ == (ArtistView::<P, T, A, B> {
                artist_id,
                artist: None,
                top_tracks: Seq::empty(),
                albums: Seq::empty(),
                eps_singles: Seq::empty(),
                compilations: Seq::empty(),
                similar: Seq::empty(),
                bio: None,
                mix_id: None,
                is_following: false,
                favorite_tracks: Set::empty(),
                tab: AlbumTab::Albums,
                loading: true,
                error: None,
            }),
    {
        State {
            artist_id,
            artist: None,
            top_tracks: Vec::new(),
            albums: Vec::new(),
            eps_singles: Vec::new(),
            compilations: Vec::new(),
            similar: Vec::new(),
            bio: None,
            mix_id: None,
            is_following: false,
            favorite_tracks: no_favorites(),
            tab: AlbumTab::Albums,
            loading: true,
            error: None,
        }
    }

    /// The follow button's label.
    pub fn follow_label(&self) -> (r: &'static str)
        ensures
            r@ == (if self@.is_following {
                "Following"@
            } else {
                "Follow"@
            }),
    {
        if self.is_following {
            "Following"
        } else {
            "Follow"
        }
    }

    pub fn artist_id(&self) -> (r: u64)
        ensures
            r == self.artist_id,
    {
        self.artist_id
    }

    /// The album list the selected tab shows.
    pub fn shown_albums(&self) -> (r: &Vec<Item<A>>)
        ensures
            r@ == match self.tab {
                AlbumTab::Albums => self.albums@,
                AlbumTab::EpsAndSingles => self.eps_singles@,
                AlbumTab::Compilations => self.compilations@,
            },
    {
        match self.tab {
            AlbumTab::Albums => &self.albums,
            AlbumTab::EpsAndSingles => &self.eps_singles,
            AlbumTab::Compilations => &self.compilations,
        }
    }

    pub fn update(&mut self, message: Message<P, T, A, B>) -> (r: (Option<Request>, Vec<ScreenEffect>))
        ensures
            artist_step(old(self)@, message, final(self)@, r),
    {
        match message {
            Message::ArtistLoaded(Ok(artist)) => {
                let images = image_list(&artist.image);
                self.artist = Some(artist);
                self.loading = false;
                self.error = None;
                (None, one(ScreenEffect::ImagesNeeded(images)))
            },
            Message::ArtistLoaded(Err(e)) => {
                self.loading = false;
                self.error = Some(e);
                (None, Vec::new())
            },
            Message::TopTracksLoaded(Ok(tracks)) => {
                self.top_tracks = tracks;
                (None, Vec::new())
            },
            Message::TopTracksLoaded(Err(_)) => (None, Vec::new()),
            Message::AlbumsLoaded(tab, Ok(albums)) => {
                let images = image_ids(&albums);
                match tab {
                    AlbumTab::Albums => self.albums = albums,
                    AlbumTab::EpsAndSingles => self.eps_singles = albums,
                    AlbumTab::Compilations => self.compilations = albums,
                }
                (None, one(ScreenEffect::ImagesNeeded(images)))
            },
            Message::AlbumsLoaded(_, Err(_)) => (None, Vec::new()),
            Message::SimilarLoaded(Ok(similar)) => {
                let images = image_ids(&similar);
                self.similar = similar;
                (None, one(ScreenEffect::ImagesNeeded(images)))
            },
            Message::SimilarLoaded(Err(_)) => (None, Vec::new()),
            Message::BioLoaded(Ok(bio)) => {
                self.bio = bio;
                (None, Vec::new())
            },
            Message::BioLoaded(Err(_)) => (None, Vec::new()),
            Message::MixIdLoaded(Ok(id)) => {
                self.mix_id = id;
                (None, Vec::new())
            },
            Message::MixIdLoaded(Err(_)) => (None, Vec::new()),
            Message::FavoritesLoaded(Ok((following, tracks))) => {
                self.is_following = following;
                self.favorite_tracks = tracks;
                (None, Vec::new())
            },
            Message::FavoritesLoaded(Err(_)) => (None, Vec::new()),
            Message::ToggleFollow => (
                Some(
                    Request::ToggleFollow {
                        artist_id: self.artist_id,
                        currently_following: self.is_following,
                    },
                ),
                Vec::new(),
            ),
            Message::FollowToggled(Ok(now)) => {
                self.is_following = now;
                (None, Vec::new())
            },
            Message::FollowToggled(Err(e)) => {
                self.error = Some(e);
                (None, Vec::new())
            },
            Message::TrackFavoriteToggled(Ok((id, now))) => {
                apply_favorite(&mut self.favorite_tracks, id, now);
                (None, Vec::new())
            },
            Message::TrackFavoriteToggled(Err(e)) => {
                self.error = Some(e);
                (None, Vec::new())
            },
            Message::TabSelected(tab) => {
                self.tab = tab;
                (None, Vec::new())
            },
            Message::PlayArtistMix => match &self.mix_id {
                Some(id) => (Some(Request::LoadMixTracks(id.clone())), Vec::new()),
                None => (None, Vec::new()),
            },
            Message::ArtistMixLoaded(Ok(ids)) => (None, one(ScreenEffect::PlayTracks(ids))),
            Message::ArtistMixLoaded(Err(e)) => {
                self.error = Some(e);
                (None, Vec::new())
            },
            Message::Track(action) => {
                let id = crate::actions::track_of(action);
                let currently = is_favorite(&self.favorite_tracks, id);
                let (toggle, effects) = run_track_action(action, currently);
                let req = match toggle {
                    Some((track_id, c)) => Some(
                        Request::ToggleTrackFavorite { track_id, currently_favorite: c },
                    ),
                    None => None,
                };
                (req, effects)
            },
            Message::Navigate(entity) => (None, one(ScreenEffect::Navigate(entity))),
        }
    }
}

/// A confirmed follow toggle sets the follow button to what the service
/// answered and changes nothing else; the next press then asks to flip
/// exactly that answer for this artist.
pub proof fn law_follow_follows_the_answer<P, T, A, B>(
    s: ArtistView<P, T, A, B>,
    now: bool,
    n: ArtistView<P, T, A, B>,
    r: (Option<Request>, Vec<ScreenEffect>),
)
    requires
        artist_step(s, Message::FollowToggled(Ok(now)), n, r),
    ensures
        n.is_following == now,
        n.artist_id == s.artist_id && n.favorite_tracks == s.favorite_tracks && n.albums
            == s.albums,
        r.0 is None,
        forall|n2: ArtistView<P, T, A, B>, r2: (Option<Request>, Vec<ScreenEffect>)|
            #[trigger] artist_step(n, Message::ToggleFollow, n2, r2) ==> r2.0 == Some(
                Request::ToggleFollow { artist_id: s.artist_id, currently_following: now },
            ),
{
}

/// A confirmed track favourite toggle marks that track as the service
/// answered and leaves every other track's mark as it was.
pub proof fn law_artist_track_favorite_follows_the_answer<P, T, A, B>(
    s: ArtistView<P, T, A, B>,
    id: u64,
    now: bool,
    n: ArtistView<P, T, A, B>,
    r: (Option<Request>, Vec<ScreenEffect>),
)
    requires
        artist_step(s, Message::TrackFavoriteToggled(Ok((id, now))), n, r),
    ensures
        n.favorite_tracks.contains(id) == now,
        forall|other: u64|
            other != id ==> (#[trigger] n.favorite_tracks.contains(other)
                == s.favorite_tracks.contains(other)),
        n.is_following == s.is_following,
        r.0 is None,
{
}

/// A tab's albums, once loaded, are what the selected tab shows: loading
/// one tab leaves the other two as they were.
pub proof fn law_loaded_albums_land_in_their_tab<P, T, A, B>(
    s: ArtistView<P, T, A, B>,
    tab: AlbumTab,
    albums: Vec<Item<A>>,
    n: ArtistView<P, T, A, B>,
    r: (Option<Request>, Vec<ScreenEffect>),
)
    requires
        artist_step(s, Message::AlbumsLoaded(tab, Ok(albums)), n, r),
    ensures
        tab == AlbumTab::Albums ==> n.albums == albums@ && n.eps_singles == s.eps_singles
            && n.compilations == s.compilations,
        tab == AlbumTab::EpsAndSingles ==> n.eps_singles == albums@ && n.albums == s.albums
            && n.compilations == s.compilations,
        tab == AlbumTab::Compilations ==> n.compilations == albums@ && n.albums == s.albums
            && n.eps_singles == s.eps_singles,
        n.tab == s.tab,
{
}

} // verus!
