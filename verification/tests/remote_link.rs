use streamboat_desktop::remote_link::{
    next_backoff, step, ConnState, LinkInput, LinkOutput, INITIAL_BACKOFF_MS, MAX_BACKOFF_MS,
};

#[test]
fn backoff_starts_small_doubles_and_caps() {
    assert_eq!(next_backoff(0), INITIAL_BACKOFF_MS);
    assert_eq!(next_backoff(250), 500);
    assert_eq!(next_backoff(20_000), MAX_BACKOFF_MS);
    assert_eq!(next_backoff(MAX_BACKOFF_MS), MAX_BACKOFF_MS);
    assert_eq!(MAX_BACKOFF_MS, 30_000);
}

#[test]
fn a_revision_gap_reconnects_immediately() {
    let state = ConnState::Connected { last_revision: Some(4) };
    let (next, out) = step(state, LinkInput::Envelope { revision: 7 });
    assert_eq!(next, ConnState::Disconnected { backoff_ms: 0 });
    assert!(matches!(out, LinkOutput::Forward));
}

#[test]
fn consecutive_revisions_stay_connected() {
    let state = ConnState::Connected { last_revision: Some(4) };
    let (next, _) = step(state, LinkInput::Envelope { revision: 5 });
    assert_eq!(next, ConnState::Connected { last_revision: Some(5) });
}

#[test]
fn a_failed_connect_backs_off_and_warns() {
    let (next, out) = step(
        ConnState::Disconnected { backoff_ms: 500 },
        LinkInput::ConnectFailed("refused".to_string()),
    );
    assert_eq!(next, ConnState::Disconnected { backoff_ms: 1000 });
    match out {
        LinkOutput::Warning(m) => {
            assert_eq!(m, "remote link: connecting to the control API: refused")
        }
        other => panic!("unexpected {other:?}"),
    }
}

#[test]
fn a_closed_connection_reconnects_without_delay() {
    let (next, out) = step(ConnState::Connected { last_revision: None }, LinkInput::Closed);
    assert_eq!(next, ConnState::Disconnected { backoff_ms: 0 });
    assert!(matches!(out, LinkOutput::Warning(_)));
    let (next, out) = step(ConnState::Disconnected { backoff_ms: 0 }, LinkInput::ConnectOk);
    assert_eq!(next, ConnState::Connected { last_revision: None });
    assert!(matches!(out, LinkOutput::Continue));
}

#[test]
fn a_fresh_connection_takes_any_first_revision() {
    let (next, _) = step(ConnState::Disconnected { backoff_ms: 4000 }, LinkInput::ConnectOk);
    let (next, out) = step(next, LinkInput::Envelope { revision: 90 });
    assert_eq!(next, ConnState::Connected { last_revision: Some(90) });
    assert!(matches!(out, LinkOutput::Forward));
}
