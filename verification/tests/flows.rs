use streamboat_desktop::instance::{
    control_token_from, decide_with_lock, decide_without_lock, show_request_due, Decision, Signal,
};
use streamboat_desktop::login::{
    self, loopback_redirect_url, DeviceAuth, Mode, PkceSession, Request,
};

type Login = login::State<u8, u8>;

#[test]
fn device_code_flow_starts_then_waits_for_the_token() {
    let mut state = Login::new();
    let (request, _) = state.update(login::Message::StartFlow);
    assert!(matches!(request, Some(Request::StartDeviceFlow)));
    assert!(state.busy);
    let auth = DeviceAuth {
        user_code: "ABCD".to_string(),
        verification_url: "https://link.tidal.com/ABCD".to_string(),
        data: 0,
    };
    let (request, _) = state.update(login::Message::DeviceAuthReady(Ok(auth)));
    assert!(matches!(request, Some(Request::WaitForDeviceToken)));
    assert!(!state.busy);
    let (request, _) = state.update(login::Message::OpenBrowser);
    match request {
        Some(Request::OpenBrowser { url }) => assert_eq!(url, "https://link.tidal.com/ABCD"),
        other => panic!("unexpected {other:?}"),
    }
    let (_, effect) = state.update(login::Message::LoginFinished(Ok(())));
    assert_eq!(effect, Some(login::Effect::LoggedIn));
}

#[test]
fn loopback_mode_redirects_to_the_local_port_and_captures() {
    assert_eq!(loopback_redirect_url(), "http://127.0.0.1:17893/callback");
    let mut state = Login::new();
    let _ = state.update(login::Message::SelectMode(Mode::PkceLoopback));
    let (request, _) = state.update(login::Message::StartFlow);
    match request {
        Some(Request::StartPkce { redirect }) => {
            assert_eq!(redirect.as_deref(), Some("http://127.0.0.1:17893/callback"))
        }
        other => panic!("unexpected {other:?}"),
    }
    let session = PkceSession {
        authorize_url: "https://login.tidal.com/x".to_string(),
        data: 1,
    };
    let (request, _) = state.update(login::Message::PkceReady(Ok(session)));
    assert!(matches!(request, Some(Request::CaptureLoopback)));
    assert!(state.busy);
}

#[test]
fn a_pasted_redirect_without_a_code_shows_the_error() {
    let mut state = Login::new();
    let _ = state.update(login::Message::SelectMode(Mode::PkcePaste));
    let (request, _) = state.update(login::Message::StartFlow);
    assert!(matches!(request, Some(Request::StartPkce { redirect: None })));
    let (request, _) = state.update(login::Message::SubmitPaste(Ok("code".to_string())));
    assert!(request.is_none());
    let session = PkceSession {
        authorize_url: "https://login.tidal.com/x".to_string(),
        data: 1,
    };
    let _ = state.update(login::Message::PkceReady(Ok(session)));
    assert!(!state.busy);
    let (request, _) = state.update(login::Message::SubmitPaste(Err("no code in URL".to_string())));
    assert!(request.is_none());
    assert_eq!(state.error.as_deref(), Some("no code in URL"));
    let (request, _) = state.update(login::Message::SubmitPaste(Ok("c0de".to_string())));
    match request {
        Some(Request::ExchangeCode { code }) => assert_eq!(code, "c0de"),
        other => panic!("unexpected {other:?}"),
    }
}

#[test]
fn a_failed_login_shows_its_error_and_stops_waiting() {
    let mut state = Login::new();
    let _ = state.update(login::Message::StartFlow);
    let (_, effect) = state.update(login::Message::LoginFinished(Err("denied".to_string())));
    assert!(effect.is_none());
    assert!(!state.busy);
    assert_eq!(state.error.as_deref(), Some("denied"));
}

#[test]
fn decide_is_local_when_the_lock_is_free() {
    match decide_with_lock::<u8, u16>(Some(1)) {
        Some(Decision::Local(1)) => {}
        _ => panic!("expected Local"),
    }
    assert!(decide_with_lock::<u8, u16>(None).is_none());
}

#[test]
fn decide_is_remote_when_a_control_address_is_present() {
    let (d, signals) = decide_without_lock::<u8, u16>(Some(4747), Some("x".to_string()));
    assert!(matches!(d, Decision::Remote(4747)));
    assert!(signals.is_empty());
}

#[test]
fn focusing_the_other_gui_writes_the_link_before_the_show_request() {
    let (d, signals) =
        decide_without_lock::<u8, u16>(None, Some("streamboat://album/123".to_string()));
    assert!(matches!(d, Decision::FocusedOther));
    assert_eq!(
        signals,
        vec![
            Signal::OpenRequest("streamboat://album/123".to_string()),
            Signal::ShowRequest
        ]
    );
    let (_, signals) = decide_without_lock::<u8, u16>(None, None);
    assert_eq!(signals, vec![Signal::ShowRequest]);
}

#[test]
fn a_show_request_fires_once_per_change() {
    assert!(!show_request_due(None, None));
    assert!(show_request_due(None, Some((10, 0))));
    assert!(!show_request_due(Some((10, 0)), Some((10, 0))));
    assert!(show_request_due(Some((10, 0)), Some((10, 5))));
}

#[test]
fn read_control_token_reads_back_what_was_written() {
    assert_eq!(
        control_token_from("abc123\n", "/run/control-token"),
        Ok("abc123".to_string())
    );
}

#[test]
fn a_blank_control_token_is_refused() {
    assert_eq!(
        control_token_from(" \n", "/run/control-token"),
        Err("control token file /run/control-token is empty".to_string())
    );
}
