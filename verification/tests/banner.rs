use streamboat_desktop::banner::{Effect, Message, State, Tone, AUTO_EXPIRE_MS};

#[test]
fn dismiss_removes_the_banner() {
    let mut state = State::new();
    let _ = state.push("warning".to_string(), Tone::Warning, false);
    let id = state.items()[0].id;
    let effect = state.update(Message::Dismiss(id));
    assert!(effect.is_none());
    assert!(state.is_empty());
}

#[test]
fn resume_bubbles_an_effect_and_clears_the_banner() {
    let mut state = State::new();
    let _ = state.push("playback started elsewhere".to_string(), Tone::Info, true);
    let id = state.items()[0].id;
    let effect = state.update(Message::Resume(id));
    assert!(matches!(effect, Some(Effect::Resume)));
    assert!(state.is_empty());
}

#[test]
fn no_banners_renders_nothing() {
    let state = State::new();
    assert!(state.is_empty());
}

#[test]
fn a_pushed_banner_expires_after_eight_seconds() {
    let mut state = State::new();
    let expire = state.push("warning".to_string(), Tone::Warning, false);
    assert_eq!(expire.delay_ms, AUTO_EXPIRE_MS);
    assert_eq!(AUTO_EXPIRE_MS, 8000);
    assert_eq!(state.items()[0].message, "warning");
    assert!(state.update(Message::Expire(expire.id)).is_none());
    assert!(state.is_empty());
}

#[test]
fn banners_get_fresh_ids_and_stay_in_order() {
    let mut state = State::new();
    let a = state.push("first".to_string(), Tone::Info, false);
    let b = state.push("second".to_string(), Tone::Danger, false);
    assert!(a.id < b.id);
    assert_eq!(state.items()[0].message, "first");
    assert_eq!(state.items()[1].message, "second");
    let _ = state.update(Message::Dismiss(a.id));
    assert_eq!(state.items().len(), 1);
    assert_eq!(state.items()[0].id, b.id);
}

#[test]
fn dismissing_an_unknown_banner_changes_nothing() {
    let mut state = State::new();
    let a = state.push("first".to_string(), Tone::Info, false);
    assert!(state.update(Message::Dismiss(a.id + 100)).is_none());
    assert_eq!(state.items().len(), 1);
}
