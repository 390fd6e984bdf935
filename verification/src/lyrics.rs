//! Full-screen synced lyrics: fetched on request (idempotently for the track
//! already loaded or loading), a plain-text fallback, a "no lyrics" state,
//! the current line highlighted from the playback position, and
//! click-to-seek on a synced line.
use vstd::prelude::*;

use crate::text::{blank, is_blank};

verus! {

/// One timed line of synced lyrics.
#[derive(Debug, Clone)]
pub struct LyricLine {
    pub time_ms: u64,
    pub text: String,
}

/// Number of leading lines whose timestamp has arrived at `position`.
pub open spec fn arrived(lines: Seq<LyricLine>, position: u64) -> nat
    decreases lines.len(),
{
    if lines.len() == 0 || lines[0].time_ms > position {
        0
    } else {
        1 + arrived(lines.drop_first(), position)
    }
}

/// The line whose timestamp has arrived but whose successor's has not:
/// the last of the leading run of arrived lines, `None` before the first.
pub open spec fn highlight_spec(lines: Seq<LyricLine>, position: u64) -> Option<usize> {
    let n = arrived(lines, position);
    if n == 0 {
        None
    } else {
        Some((n - 1) as usize)
    }
}

proof fn lemma_arrived_bound(lines: Seq<LyricLine>, position: u64)
    ensures
        arrived(lines, position) <= lines.len(),
    decreases lines.len(),
{
    if lines.len() > 0 && lines[0].time_ms <= position {
        lemma_arrived_bound(lines.drop_first(), position);
    }
}

proof fn lemma_arrived_shape(lines: Seq<LyricLine>, position: u64)
    ensures
        arrived(lines, position) <= lines.len(),
        forall|k: int| 0 <= k < arrived(lines, position) ==> #[trigger] lines[k].time_ms <= position,
        arrived(lines, position) < lines.len() ==> lines[arrived(lines, position) as int].time_ms
            > position,
    decreases lines.len(),
{
    if lines.len() > 0 && lines[0].time_ms <= position {
        let rest = lines.drop_first();
        lemma_arrived_shape(rest, position);
        assert forall|k: int| 0 <= k < arrived(lines, position) implies #[trigger] lines[k].time_ms
            <= position by {
            if k > 0 {
                assert(lines[k] == rest[k - 1]);
            }
        }
        if arrived(lines, position) < lines.len() {
            assert(lines[arrived(lines, position) as int] == rest[arrived(rest, position) as int]);
        }
    }
}

/// The highlighted line is the one playing: its timestamp has arrived and
/// the next line's has not; before the first timestamp nothing is
/// highlighted.
pub proof fn law_highlight_is_the_current_line(lines: Seq<LyricLine>, position: u64)
    requires
        lines.len() <= usize::MAX,
    ensures
        match highlight_spec(lines, position) {
            Some(i) => i < lines.len() && lines[i as int].time_ms <= position && (i + 1
                == lines.len() || lines[i + 1].time_ms > position),
            None => lines.len() == 0 || lines[0].time_ms > position,
        },
{
    lemma_arrived_shape(lines, position);
    let n = arrived(lines, position);
    if n > 0 {
        assert(lines[n - 1].time_ms <= position);
        assert(((n - 1) as usize) as int == n - 1);
    }
}

pub fn highlighted_index(lines: &[LyricLine], position_ms: u64) -> (r: Option<usize>)
    ensures
        r == highlight_spec(lines@, position_ms),
{
    let mut i: usize = 0;
    assert(lines@.subrange(0, lines@.len() as int) =~= lines@);
    while i < lines.len() && lines[i].time_ms <= position_ms
        invariant
            i <= lines@.len(),
            arrived(lines@, position_ms) == i + arrived(
                lines@.subrange(i as int, lines@.len() as int),
                position_ms,
            ),
        decreases lines.len() - i,
    {
        proof {
            let rest = lines@.subrange(i as int, lines@.len() as int);
            assert(rest[0] == lines@[i as int]);
            assert(rest.drop_first() =~= lines@.subrange(i + 1, lines@.len() as int));
        }
        i = i + 1;
    }
    proof {
        let rest = lines@.subrange(i as int, lines@.len() as int);
        if i < lines@.len() {
            assert(rest[0] == lines@[i as int]);
        }
        lemma_arrived_bound(lines@, position_ms);
    }
    if i == 0 {
        None
    } else {
        Some(i - 1)
    }
}

/// What the lyrics endpoint returned: the raw subtitles text (if any), its
/// timed lines as parsed by the lyrics parser, and the plain lyrics text.
#[derive(Debug, Clone)]
pub struct LyricsPayload {
    pub subtitles: Option<String>,
    pub synced: Vec<LyricLine>,
    pub lyrics: Option<String>,
}

#[derive(Debug, Clone)]
pub enum Status {
    Idle,
    Loading,
    Synced(Vec<LyricLine>),
    Plain(String),
    NoLyrics,
    Error(String),
}

/// The screen state.
pub struct State {
    pub track_id: Option<u64>,
    pub status: Status,
    pub highlighted: Option<usize>,
}

#[derive(Debug)]
pub enum Message {
    /// Fetch lyrics for a track unless already loaded or loading for it.
    Requested(u64),
    Loaded(u64, Result<Option<LyricsPayload>, String>),
    SeekTo(u64),
    /// The live playback position.
    PositionChanged(u64),
}

/// Work for the shell.
#[derive(Debug, Clone, Copy, PartialEq, Eq)]
pub enum Request {
    /// Fetch the lyrics of a track; answer with `Message::Loaded`.
    Load(u64),
    /// Scroll the lines list to show line `index`.
    ScrollTo(usize),
}

#[derive(Debug, Clone, Copy, PartialEq, Eq)]
pub enum Effect {
    Seek(u64),
}

pub open spec fn non_blank(o: Option<String>) -> Option<String> {
    match o {
        Some(s) if !is_blank(s@) => Some(s),
        _ => None,
    }
}

/// The plain-text fallback: the lyrics text unless missing or blank.
pub open spec fn plain_status(p: LyricsPayload) -> Status {
    match non_blank(p.lyrics) {
        Some(l) => Status::Plain(l),
        None => Status::NoLyrics,
    }
}

/// What a successful answer shows: synced lines when the subtitles are
/// present, non-blank and yield lines; otherwise the plain fallback.
pub open spec fn loaded_status(p: LyricsPayload) -> Status {
    match non_blank(p.subtitles) {
        Some(_) => if p.synced@.len() > 0 {
            Status::Synced(p.synced)
        } else {
            plain_status(p)
        },
        None => plain_status(p),
    }
}

fn plain_of(lyrics: Option<String>) -> (r: Status)
    ensures
        r == (match non_blank(lyrics) {
            Some(l) => Status::Plain(l),
            None => Status::NoLyrics,
        }),
{
    match lyrics {
        Some(l) => {
            if blank(l.as_str()) {
                Status::NoLyrics
            } else {
                Status::Plain(l)
            }
        },
        None => Status::NoLyrics,
    }
}

/// The screen asked for the lyrics of track `t`: a no-op when they are
/// already loaded or loading; otherwise the screen starts loading them and
/// asks for them.
pub open spec fn on_request(s: State, t: u64) -> (State, Option<Request>) {
    if s.track_id == Some(t) && !(s.status is Idle) {
        (s, None)
    } else {
        (State { track_id: Some(t), status: Status::Loading, highlighted: None }, Some(Request::Load(t)))
    }
}

/// Asking twice for the same track's lyrics loads them once: the second
/// request changes nothing and asks for nothing.
pub proof fn law_request_is_idempotent(s: State, t: u64)
    ensures
        on_request(on_request(s, t).0, t) == (on_request(s, t).0, None::<Request>),
{
}

impl State {
    pub fn new() -> (r: State)
        ensures
            r.track_id is None,
            r.status is Idle,
            r.highlighted is None,
    {
        State { track_id: None, status: Status::Idle, highlighted: None }
    }

    pub fn update(&mut self, message: Message) -> (r: (Option<Request>, Option<Effect>))
        ensures
            match message {
                Message::Requested(t) => (*final(self), r.0) == on_request(*old(self), t)
                    && r.1 is None,
                Message::Loaded(t, result) => if old(self).track_id != Some(t) {
                    *final(self) == *old(self) && r == (None::<Request>, None::<Effect>)
                } else {
                    final(self).track_id == old(self).track_id && final(self).highlighted == old(
                        self,
                    ).highlighted && r == (None::<Request>, None::<Effect>) && final(self).status
                        == match result {
                        Ok(Some(p)) => loaded_status(p),
                        Ok(None) => Status::NoLyrics,
                        Err(e) => Status::Error(e),
                    }
                },
                Message::SeekTo(ms) => *final(self) == *old(self) && r == (
                    None::<Request>,
                    Some(Effect::Seek(ms)),
                ),
                Message::PositionChanged(p) => match old(self).status {
                    Status::Synced(lines) => {
                        let idx = highlight_spec(lines@, p);
                        final(self).track_id == old(self).track_id && final(self).status == old(
                            self,
                        ).status && final(self).highlighted == idx && r.1 is None && (if idx
                            == old(self).highlighted {
                            r.0 is None
                        } else {
                            match idx {
                                Some(i) => r.0 == Some(Request::ScrollTo(i)),
                                None => r.0 is None,
                            }
                        })
                    },
                    _ => *final(self) == *old(self) && r == (None::<Request>, None::<Effect>),
                },
            },
    {
        match message {
            Message::Requested(track_id) => {
                let same = match self.track_id {
                    Some(t) => t == track_id,
                    None => false,
                };
                let idle = match self.status {
                    Status::Idle => true,
                    _ => false,
                };
                if same && !idle {
                    return (None, None);
                }
                self.track_id = Some(track_id);
                self.status = Status::Loading;
                self.highlighted = None;
                (Some(Request::Load(track_id)), None)
            },
            Message::Loaded(track_id, result) => {
                let current = match self.track_id {
                    Some(t) => t == track_id,
                    None => false,
                };
                if !current {
                    return (None, None);
                }
                self.status = match result {
                    Ok(Some(payload)) => {
                        let subtitles_present = match &payload.subtitles {
                            Some(s) => !blank(s.as_str()),
                            None => false,
                        };
                        if subtitles_present && payload.synced.len() > 0 {
                            Status::Synced(payload.synced)
                        } else {
                            plain_of(payload.lyrics)
                        }
                    },
                    Ok(None) => Status::NoLyrics,
                    Err(e) => Status::Error(e),
                };
                (None, None)
            },
            Message::SeekTo(ms) => (None, Some(Effect::Seek(ms))),
            Message::PositionChanged(position_ms) => {
                let index = match &self.status {
                    Status::Synced(lines) => highlighted_index(lines.as_slice(), position_ms),
                    _ => {
                        return (None, None);
                    },
                };
                let unchanged = match (index, self.highlighted) {
                    (Some(a), Some(b)) => a == b,
                    (None, None) => true,
                    _ => false,
                };
                if unchanged {
                    return (None, None);
                }
                self.highlighted = index;
                match index {
                    Some(i) => (Some(Request::ScrollTo(i)), None),
                    None => (None, None),
                }
            },
        }
    }
}

} // verus!
