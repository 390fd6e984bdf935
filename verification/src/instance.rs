//! Single-instance startup: whether this process runs the engine itself,
//! becomes a remote client of a daemon that holds the lock, or asks the
//! GUI that holds it to come to the front (handing it a link first). The
//! lock and the signal files are outside; these are the decisions.
use vstd::prelude::*;

use crate::text::{push_str, string_from_chars, trim, trimmed};

verus! {

/// How often the holder looks at the show-request file.
pub const POLL_INTERVAL_MS: u64 = 400;

/// What startup does, decided once.
#[derive(Debug)]
pub enum Decision<L, A> {
    /// This process holds the lock `L` and runs the engine.
    Local(L),
    /// A daemon holds the lock and serves the control API at `A`.
    Remote(A),
    /// Another GUI holds the lock; it has been asked to show itself.
    FocusedOther,
}

/// A signal file this process writes for the GUI that holds the lock.
#[derive(Debug, Clone, PartialEq, Eq)]
pub enum Signal {
    /// Leave a link for it to open.
    OpenRequest(String),
    /// Ask it to come to the front.
    ShowRequest,
}

/// The first step: with the lock, run locally; without it, the control
/// address file decides (see [`decide_without_lock`]).
pub fn decide_with_lock<L, A>(lock: Option<L>) -> (r: Option<Decision<L, A>>)
    ensures
        match lock {
            Some(l) => r == Some(Decision::<L, A>::Local(l)),
            None => r is None,
        },
{
    match lock {
        Some(l) => Some(Decision::Local(l)),
        None => None,
    }
}

/// Without the lock: a daemon's control address makes this a remote
/// client; no address means another GUI holds it, which is asked to show
/// itself (link first).
pub fn decide_without_lock<L, A>(address: Option<A>, open_url: Option<String>) -> (r: (
    Decision<L, A>,
    Vec<Signal>,
))
    ensures
        match address {
            Some(a) => r.0 == Decision::<L, A>::Remote(a) && r.1@.len() == 0,
            None => r.0 is FocusedOther && match open_url {
                Some(u) => r.1@.len() == 2 && (r.1@[0] matches Signal::OpenRequest(v) && v@
                    == u@) && r.1@[1] is ShowRequest,
                None => r.1@.len() == 1 && r.1@[0] is ShowRequest,
            },
        },
{
    match address {
        Some(a) => (Decision::Remote(a), Vec::new()),
        None => {
            let mut signals: Vec<Signal> = Vec::new();
            match open_url {
                Some(u) => signals.push(Signal::OpenRequest(u)),
                None => {},
            }
            signals.push(Signal::ShowRequest);
            (Decision::FocusedOther, signals)
        },
    }
}

/// The two signal files the holder watches, by path.
#[derive(Debug, Clone, PartialEq, Eq, Hash)]
pub struct SignalPaths {
    pub show_request: String,
    pub open_request: String,
}

/// What one show-request tick saw: always "come to the front", and the
/// link left in the open-request file, if any (taken at most once).
#[derive(Debug, Clone, PartialEq, Eq)]
pub struct ShowRequest {
    pub open_url: Option<String>,
}

/// Whether a poll of the show-request file reports a new request: the file
/// exists and its modification time differs from the last one seen.
pub fn show_request_due(last_seen: Option<(u64, u32)>, mtime: Option<(u64, u32)>) -> (r: bool)
    ensures
        r == (mtime is Some && last_seen != mtime),
{
    match mtime {
        Some((s, n)) => match last_seen {
            Some((ls, ln)) => !(ls == s && ln == n),
            None => true,
        },
        None => false,
    }
}

/// The control token a file holds: its trimmed contents, refused when
/// blank.
pub open spec fn token_spec(contents: Seq<char>, path: Seq<char>) -> Result<
    Seq<char>,
    Seq<char>,
> {
    if trim(contents).len() == 0 {
        Err("control token file "@ + path + " is empty"@)
    } else {
        Ok(trim(contents))
    }
}

pub fn control_token_from(contents: &str, path: &str) -> (r: Result<String, String>)
    ensures
        match r {
            Ok(t) => token_spec(contents@, path@) == Ok::<Seq<char>, Seq<char>>(t@),
            Err(e) => token_spec(contents@, path@) == Err::<Seq<char>, Seq<char>>(e@),
        },
{
    let t = trimmed(contents);
    if t.as_str().is_empty() {
        let mut v: Vec<char> = Vec::new();
        push_str("control token file ", &mut v);
        push_str(path, &mut v);
        push_str(" is empty", &mut v);
        Err(string_from_chars(&v))
    } else {
        Ok(t)
    }
}

} // verus!
