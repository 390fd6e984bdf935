use streamboat_desktop::format::AudioQuality;
use streamboat_desktop::settings::{
    logout_finished, non_empty, DecoderSupport, Effect, Message, OutputConfig, OutputMode, Settings, State,
    DEFAULT_SNAPCAST_PORT,
};

type Prefs = Settings<u8, u8, u8>;

fn settings_with(quality: AudioQuality, output: OutputConfig) -> Prefs {
    Settings {
        quality_ceiling: quality,
        output,
        replay_gain_mode: 0,
        play_reporting: true,
        theme: 0,
        client_id: None,
        client_secret: None,
        pkce_client_id: None,
        pkce_client_secret: None,
        key_storage: 0,
    }
}

fn shared_default() -> OutputConfig {
    OutputConfig::Shared { device: None }
}

#[test]
fn decoder_probe_drops_unreachable_tiers_from_the_picker() {
    let settings = settings_with(AudioQuality::High, shared_default());
    let no_flac = DecoderSupport {
        low: true,
        high: true,
        lossless: false,
        hi_res_lossless: false,
    };
    let state = State::from_settings(&settings, "file".into()).with_decoder_support(no_flac);
    assert_eq!(
        state.unreachable,
        vec![AudioQuality::HiResLossless, AudioQuality::Lossless]
    );
    assert_eq!(
        state.offered_tiers(),
        vec![AudioQuality::High, AudioQuality::Low]
    );
    let persisted = settings_with(AudioQuality::Lossless, shared_default());
    let state = State::from_settings(&persisted, "file".into()).with_decoder_support(no_flac);
    assert!(state.offered_tiers().contains(&AudioQuality::Lossless));
    assert!(!state.offered_tiers().contains(&AudioQuality::HiResLossless));
}

#[test]
fn from_settings_round_trips_through_apply_to() {
    let settings = settings_with(
        AudioQuality::Lossless,
        OutputConfig::Exclusive {
            device: "hw:1,0".into(),
        },
    );
    let state = State::from_settings(&settings, "keyring".into());
    assert_eq!(state.quality_ceiling, AudioQuality::Lossless);
    assert_eq!(state.output_mode, OutputMode::Exclusive);
    assert_eq!(state.output_device, "hw:1,0");
    let mut round_tripped = settings_with(AudioQuality::Low, shared_default());
    let output = state.apply_to(&mut round_tripped);
    assert_eq!(
        output,
        OutputConfig::Exclusive {
            device: "hw:1,0".into()
        }
    );
    assert_eq!(round_tripped.quality_ceiling, AudioQuality::Lossless);
}

#[test]
fn snapcast_output_round_trips_through_apply_to() {
    let settings = settings_with(
        AudioQuality::High,
        OutputConfig::Snapcast {
            host: "192.168.1.50".into(),
            port: 4953,
        },
    );
    let state = State::from_settings(&settings, "file".into());
    assert_eq!(state.output_mode, OutputMode::Snapcast);
    assert_eq!(state.snapcast_host, "192.168.1.50");
    assert_eq!(state.snapcast_port, "4953");
    assert_eq!(state.output_device, "");
    let mut round_tripped = settings_with(AudioQuality::Low, shared_default());
    let output = state.apply_to(&mut round_tripped);
    assert_eq!(
        output,
        OutputConfig::Snapcast {
            host: "192.168.1.50".into(),
            port: 4953,
        }
    );
    assert_eq!(round_tripped.output, output);
}

#[test]
fn snapcast_output_falls_back_to_documented_defaults_when_blank() {
    let mut state = State::from_settings(&settings_with(AudioQuality::High, shared_default()), "file".into());
    state.output_mode = OutputMode::Snapcast;
    state.snapcast_host = "  ".into();
    state.snapcast_port = "not a port".into();
    let mut settings = settings_with(AudioQuality::High, shared_default());
    let output = state.apply_to(&mut settings);
    assert_eq!(
        output,
        OutputConfig::Snapcast {
            host: "127.0.0.1".into(),
            port: DEFAULT_SNAPCAST_PORT,
        }
    );
}

#[test]
fn snapcast_host_and_port_are_trimmed() {
    let mut state = State::from_settings(&settings_with(AudioQuality::High, shared_default()), "file".into());
    state.output_mode = OutputMode::Snapcast;
    state.snapcast_host = "  box.local ".into();
    state.snapcast_port = " 1705 ".into();
    let mut settings = settings_with(AudioQuality::High, shared_default());
    assert_eq!(
        state.apply_to(&mut settings),
        OutputConfig::Snapcast {
            host: "box.local".into(),
            port: 1705,
        }
    );
}

#[test]
fn a_shared_output_with_a_blank_device_uses_the_default_device() {
    let state = State::from_settings(&settings_with(AudioQuality::High, shared_default()), "file".into());
    assert_eq!(state.output_mode, OutputMode::Shared);
    assert_eq!(state.snapcast_host, "127.0.0.1");
    assert_eq!(state.snapcast_port, "4953");
    let mut settings = settings_with(AudioQuality::High, shared_default());
    assert_eq!(state.apply_to(&mut settings), OutputConfig::Shared { device: None });
}

#[test]
fn credentials_are_trimmed_and_blank_ones_dropped() {
    assert_eq!(non_empty("  abc "), Some("abc".to_string()));
    assert_eq!(non_empty("   "), None);
    assert_eq!(non_empty(""), None);
    let mut state = State::from_settings(&settings_with(AudioQuality::High, shared_default()), "file".into());
    let _ = state.update(Message::ClientIdChanged(" id-1 ".to_string()));
    let mut settings = settings_with(AudioQuality::High, shared_default());
    let _ = state.apply_to(&mut settings);
    assert_eq!(settings.client_id.as_deref(), Some("id-1"));
    assert_eq!(settings.client_secret, None);
}

#[test]
fn edits_mark_the_form_unsaved_and_save_bubbles_an_effect() {
    let mut state = State::from_settings(&settings_with(AudioQuality::High, shared_default()), "file".into());
    assert!(state.saved);
    assert_eq!(state.update(Message::QualityChanged(AudioQuality::Low)), None);
    assert!(!state.saved);
    assert_eq!(state.update(Message::ThemeChanged(2)), Some(Effect::ThemeChanged(2)));
    assert_eq!(state.update(Message::Save), Some(Effect::Save));
    assert!(state.saved);
    assert_eq!(state.update(Message::Saved(Err("disk full".to_string()))), None);
    assert_eq!(state.error.as_deref(), Some("disk full"));
    assert_eq!(state.update(Message::Logout), Some(Effect::Logout));
    assert_eq!(state.update(Message::LoggedOut), Some(Effect::LoggedOut));
}

#[test]
fn output_mode_labels() {
    let labels: Vec<&str> = OutputMode::all().iter().map(|m| m.label()).collect();
    assert_eq!(labels, vec!["Shared", "Exclusive (bit-perfect)", "Snapcast (multiroom)"]);
}

#[test]
fn logout_outcome_becomes_a_message() {
    let done: Message<u8, u8, u8> = logout_finished(Ok(()));
    assert!(matches!(done, Message::LoggedOut));
    let failed: Message<u8, u8, u8> = logout_finished(Err("keyring locked".to_string()));
    match failed {
        Message::Saved(Err(e)) => assert_eq!(e, "keyring locked"),
        other => panic!("unexpected message {:?}", other),
    }
}
