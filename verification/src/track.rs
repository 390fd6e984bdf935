//! The Track entity page's state: a standalone track opens its album (with
//! the track highlighted), plus the track's credits.
use vstd::prelude::*;

use crate::actions::ScreenEffect;
use crate::album;
use crate::format::opt_chars;

verus! {

pub struct State<A, T, C> {
    pub track_id: u64,
    pub album: album::State<A, T>,
    pub credits: Vec<C>,
    pub error: Option<String>,
}

#[derive(Debug)]
pub enum Message<A, T, C> {
    /// The track loaded: the id of its album, when it has one on file.
    TrackLoaded(Result<Option<u64>, String>),
    CreditsLoaded(Result<Vec<C>, String>),
    Album(album::Message<A, T>),
}

#[derive(Debug, Clone, Copy, PartialEq, Eq)]
pub enum Request {
    /// Load everything the album page shows for this album.
    LoadAlbum(u64),
    Album(album::Request),
}

impl<A, T, C> State<A, T, C> {
    pub fn new(track_id: u64) -> (r: State<A, T, C>)
        ensures
            r.track_id == track_id,
            r.album@ == album::State::<A, T>::new_view(0),
            r.credits@.len() == 0,
            r.error is None,
    {
        State { track_id, album: album::State::new(0), credits: Vec::new(), error: None }
    }

    pub fn track_id(&self) -> (r: u64)
        ensures
            r == self.track_id,
    {
        self.track_id
    }

    pub fn update(&mut self, message: Message<A, T, C>) -> (r: (Option<Request>, Vec<ScreenEffect>))
        ensures
            final(self).track_id == old(self).track_id,
            match message {
                Message::TrackLoaded(Ok(Some(album_id))) => final(self).album@
                    == album::State::<A, T>::new_view(album_id) && final(self).credits
                    == old(self).credits && final(self).error == old(self).error && r.0 == Some(
                    Request::LoadAlbum(album_id),
                ) && r.1@.len() == 0,
                Message::TrackLoaded(Ok(None)) => final(self).album == old(self).album
                    && final(self).credits == old(self).credits && opt_chars(final(self).error)
                    == Some("this track has no album on file"@) && r.0 is None && r.1@.len()
                    == 0,
                Message::TrackLoaded(Err(e)) => final(self).album == old(self).album
                    && final(self).credits == old(self).credits && final(self).error == Some(e)
                    && r.0 is None && r.1@.len() == 0,
                Message::CreditsLoaded(Ok(credits)) => final(self).album == old(self).album
                    && final(self).credits == credits && final(self).error == old(self).error
                    && r.0 is None && r.1@.len() == 0,
                Message::CreditsLoaded(Err(_)) => *final(self) == *old(self) && r.0 is None
                    && r.1@.len() == 0,
                Message::Album(inner) => final(self).credits == old(self).credits
                    && final(self).error == old(self).error && exists|ar: (
                        Option<album::Request>,
                        Vec<ScreenEffect>,
                    )|
                        album::State::<A, T>::update_post(old(self).album, inner, final(self).album, ar)
                        && r.1 == ar.1 && r.0 == match ar.0 {
                        Some(q) => Some(Request::Album(q)),
                        None => None::<Request>,
                    },
            },
    {
        match message {
            Message::TrackLoaded(Ok(Some(album_id))) => {
                self.album = album::State::new(album_id);
                (Some(Request::LoadAlbum(album_id)), Vec::new())
            },
            Message::TrackLoaded(Ok(None)) => {
                self.error = Some(crate::text::owned("this track has no album on file"));
                (None, Vec::new())
            },
            Message::TrackLoaded(Err(e)) => {
                self.error = Some(e);
                (None, Vec::new())
            },
            Message::CreditsLoaded(Ok(credits)) => {
                self.credits = credits;
                (None, Vec::new())
            },
            Message::CreditsLoaded(Err(_)) => (None, Vec::new()),
            Message::Album(inner) => {
                let (req, effects) = self.album.update(inner);
                let mapped = match req {
                    Some(q) => Some(Request::Album(q)),
                    None => None,
                };
                (mapped, effects)
            },
        }
    }
}

} // verus!
