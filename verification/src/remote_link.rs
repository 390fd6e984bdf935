//! The control-API client's reconnect logic: capped exponential backoff,
//! and the state machine that turns connection outcomes and received
//! envelopes into events for the shell, reconnecting with a fresh snapshot
//! on any revision gap or disconnect.
use vstd::prelude::*;

use crate::text::owned;

verus! {

/// The first retry delay, in milliseconds.
pub const INITIAL_BACKOFF_MS: u64 = 250;

/// The longest retry delay, in milliseconds.
pub const MAX_BACKOFF_MS: u64 = 30000;

/// The next retry delay: the initial one after no delay, else double the
/// current one, capped.
pub open spec fn backoff_after(current: u64) -> u64 {
    if current == 0 {
        INITIAL_BACKOFF_MS
    } else if current * 2 > MAX_BACKOFF_MS {
        MAX_BACKOFF_MS
    } else {
        (current * 2) as u64
    }
}

pub fn next_backoff(current: u64) -> (r: u64)
    ensures
        r == backoff_after(current),
{
    if current == 0 {
        INITIAL_BACKOFF_MS
    } else if current > MAX_BACKOFF_MS / 2 {
        MAX_BACKOFF_MS
    } else {
        current * 2
    }
}

/// Where the event stream stands.
#[derive(Debug, Clone, Copy, PartialEq, Eq)]
pub enum ConnState {
    /// Not connected: wait `backoff_ms` (none when zero), then connect.
    Disconnected { backoff_ms: u64 },
    /// Receiving; the revision of the last envelope seen on this connection.
    Connected { last_revision: Option<u64> },
}

/// What happened since the last step.
#[derive(Debug)]
pub enum LinkInput {
    /// Connecting succeeded.
    ConnectOk,
    /// Connecting failed, for this reason.
    ConnectFailed(String),
    /// An envelope with this revision arrived.
    Envelope { revision: u64 },
    /// The socket closed or failed.
    Closed,
}

/// What the stream yields for the step.
#[derive(Debug)]
pub enum LinkOutput {
    /// Nothing yet: keep going from the new state (connect, then receive).
    Continue,
    /// Yield the received envelope's event.
    Forward,
    /// Yield a warning event with this message.
    Warning(String),
}

/// A revision gap: something between the last envelope and this one was
/// missed.
pub open spec fn gapped(last: Option<u64>, revision: u64) -> bool {
    match last {
        Some(l) => revision > l + 1,
        None => false,
    }
}

/// One step of the reconnect/receive machine.
pub open spec fn step_spec(state: ConnState, input: LinkInput) -> (ConnState, bool) {
    match (state, input) {
        (ConnState::Disconnected { .. }, LinkInput::ConnectOk) => (
            ConnState::Connected { last_revision: None },
            true,
        ),
        (ConnState::Disconnected { backoff_ms }, LinkInput::ConnectFailed(_)) => (
            ConnState::Disconnected { backoff_ms: backoff_after(backoff_ms) },
            true,
        ),
        (ConnState::Connected { last_revision }, LinkInput::Envelope { revision }) => (
            if gapped(last_revision, revision) {
                ConnState::Disconnected { backoff_ms: 0 }
            } else {
                ConnState::Connected { last_revision: Some(revision) }
            },
            true,
        ),
        (ConnState::Connected { .. }, LinkInput::Closed) => (
            ConnState::Disconnected { backoff_ms: 0 },
            true,
        ),
        (s, _) => (s, false),
    }
}

/// Advances the machine by one input. Inputs that cannot happen in a state
/// (an envelope while disconnected, a connect result while connected) leave
/// it unchanged and yield nothing.
pub fn step(state: ConnState, input: LinkInput) -> (r: (ConnState, LinkOutput))
    ensures
        r.0 == step_spec(state, input).0,
        match (state, input) {
            (ConnState::Disconnected { .. }, LinkInput::ConnectOk) => r.1 is Continue,
            (ConnState::Disconnected { .. }, LinkInput::ConnectFailed(e)) => r.1 matches LinkOutput::Warning(m)
                && m@ == "remote link: connecting to the control API: "@ + e@,
            (ConnState::Connected { .. }, LinkInput::Envelope { .. }) => r.1 is Forward,
            (ConnState::Connected { .. }, LinkInput::Closed) => r.1 matches LinkOutput::Warning(m)
                && m@ == "remote link: lost the connection to the control API; reconnecting"@,
            _ => r.1 is Continue,
        },
{
    match (state, input) {
        (ConnState::Disconnected { .. }, LinkInput::ConnectOk) => (
            ConnState::Connected { last_revision: None },
            LinkOutput::Continue,
        ),
        (ConnState::Disconnected { backoff_ms }, LinkInput::ConnectFailed(e)) => {
            let mut m = owned("remote link: connecting to the control API: ");
            m.append(e.as_str());
            (ConnState::Disconnected { backoff_ms: next_backoff(backoff_ms) }, LinkOutput::Warning(m))
        },
        (ConnState::Connected { last_revision }, LinkInput::Envelope { revision }) => {
            let gap = match last_revision {
                Some(l) => revision > l && revision - l > 1,
                None => false,
            };
            let next = if gap {
                ConnState::Disconnected { backoff_ms: 0 }
            } else {
                ConnState::Connected { last_revision: Some(revision) }
            };
            (next, LinkOutput::Forward)
        },
        (ConnState::Connected { .. }, LinkInput::Closed) => (
            ConnState::Disconnected { backoff_ms: 0 },
            LinkOutput::Warning(
                owned("remote link: lost the connection to the control API; reconnecting"),
            ),
        ),
        (s, _) => (s, LinkOutput::Continue),
    }
}

/// The backoff never exceeds its cap, and grows (until the cap) on every
/// consecutive failure.
pub proof fn law_backoff_is_capped_and_grows(current: u64)
    requires
        current <= MAX_BACKOFF_MS,
    ensures
        backoff_after(current) <= MAX_BACKOFF_MS,
        backoff_after(current) >= current,
        current < MAX_BACKOFF_MS ==> backoff_after(current) > current,
{
}

/// A gap sends the next step straight back to connecting, with no delay;
/// consecutive revisions keep the connection.
pub proof fn law_gap_reconnects_immediately(last: u64, revision: u64)
    ensures
        revision > last + 1 ==> step_spec(
            ConnState::Connected { last_revision: Some(last) },
            LinkInput::Envelope { revision },
        ).0 == (ConnState::Disconnected { backoff_ms: 0 }),
        revision == last + 1 ==> step_spec(
            ConnState::Connected { last_revision: Some(last) },
            LinkInput::Envelope { revision },
        ).0 == (ConnState::Connected { last_revision: Some(revision) }),
{
}

/// A lost connection is retried at once, and a new connection takes its
/// first envelope (the snapshot the server sends on connect) whatever its
/// revision, keeping the connection.
pub proof fn law_reconnect_starts_fresh(backoff_ms: u64, last: Option<u64>, revision: u64)
    ensures
        step_spec(ConnState::Connected { last_revision: last }, LinkInput::Closed).0
            == (ConnState::Disconnected { backoff_ms: 0 }),
        step_spec(ConnState::Disconnected { backoff_ms }, LinkInput::ConnectOk).0
            == (ConnState::Connected { last_revision: None }),
        step_spec(ConnState::Connected { last_revision: None }, LinkInput::Envelope { revision }).0
            == (ConnState::Connected { last_revision: Some(revision) }),
{
}

} // verus!
