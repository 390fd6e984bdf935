use streamboat_desktop::json::Json;
use streamboat_desktop::proto::Command;
use streamboat_desktop::snapcast::{
    control_action, dispatch, frame_line, normalize_base_url, playback_status_name,
    sent_reply, set_property_action, ControlAction, Dispatch, PlaybackStatus, PropertyAction,
    RpcMessage, RpcNotification, RpcResponse, INTERNAL_ERROR, INVALID_PARAMS, METHOD_NOT_FOUND,
};

fn obj(fields: Vec<(&str, Json)>) -> Json {
    Json::Object(fields.into_iter().map(|(k, v)| (k.to_string(), v)).collect())
}

fn text(s: &str) -> Json {
    Json::Text(s.to_string())
}

fn command(c: &str) -> Json {
    obj(vec![("command", text(c))])
}

#[test]
fn control_play_pause_and_transport_map_to_the_expected_commands() {
    assert!(matches!(
        control_action(&command("play")).unwrap(),
        ControlAction::Send(Command::Resume)
    ));
    assert!(matches!(
        control_action(&command("pause")).unwrap(),
        ControlAction::Send(Command::Pause)
    ));
    assert!(matches!(
        control_action(&command("playPause")).unwrap(),
        ControlAction::Send(Command::TogglePlayPause)
    ));
    assert!(matches!(
        control_action(&command("stop")).unwrap(),
        ControlAction::Send(Command::Stop)
    ));
    assert!(matches!(
        control_action(&command("next")).unwrap(),
        ControlAction::Send(Command::Next)
    ));
    assert!(matches!(
        control_action(&command("previous")).unwrap(),
        ControlAction::Send(Command::Previous)
    ));
}

#[test]
fn control_with_an_unknown_command_is_invalid_params_not_method_not_found() {
    let err = control_action(&command("teleport")).unwrap_err();
    assert_eq!(err.0, INVALID_PARAMS);
    assert_eq!(err.1, "Control: unknown command \"teleport\"");
}

#[test]
fn set_property_on_an_unsupported_property_is_a_typed_refusal() {
    let err = set_property_action(&obj(vec![
        ("property", text("shuffle")),
        ("value", Json::Bool(true)),
    ]))
    .unwrap_err();
    assert_eq!(err.0, INVALID_PARAMS);
    assert_eq!(err.1, "SetProperty: \"shuffle\" is not supported by streamboat");
}

#[test]
fn seek_is_relative_and_set_position_is_absolute() {
    let seek = obj(vec![
        ("command", text("seek")),
        ("params", obj(vec![("offset", Json::Number(None))])),
    ]);
    assert!(matches!(control_action(&seek).unwrap(), ControlAction::RelativeSeek));
    let set = obj(vec![
        ("command", text("setPosition")),
        ("params", obj(vec![("position", Json::Number(Some(30)))])),
    ]);
    assert!(matches!(control_action(&set).unwrap(), ControlAction::AbsoluteSeek));
}

#[test]
fn a_seek_without_its_seconds_is_refused() {
    let err = control_action(&obj(vec![("command", text("seek"))])).unwrap_err();
    assert_eq!(err, (INVALID_PARAMS, "seek: missing \"offset\"".to_string()));
    let err = control_action(&obj(vec![
        ("command", text("setPosition")),
        ("params", obj(vec![("position", text("30"))])),
    ]))
    .unwrap_err();
    assert_eq!(err, (INVALID_PARAMS, "setPosition: missing \"position\"".to_string()));
    let err = control_action(&obj(vec![])).unwrap_err();
    assert_eq!(err, (INVALID_PARAMS, "Control: missing \"command\"".to_string()));
}

#[test]
fn set_property_volume_needs_a_number() {
    assert_eq!(
        set_property_action(&obj(vec![
            ("property", text("volume")),
            ("value", Json::Number(Some(50)))
        ])),
        Ok(PropertyAction::SetVolumePercent)
    );
    assert_eq!(
        set_property_action(&obj(vec![("property", text("volume"))])),
        Err((INVALID_PARAMS, "SetProperty volume: missing \"value\"".to_string()))
    );
}

fn message(method: &str, params: Json) -> RpcMessage {
    RpcMessage {
        id: Some(Json::Number(Some(7))),
        method: method.to_string(),
        params,
    }
}

#[test]
fn dispatch_routes_each_method() {
    assert!(matches!(
        dispatch(&message("Plugin.Stream.Player.Control", command("next"))),
        Dispatch::Control(ControlAction::Send(Command::Next))
    ));
    assert!(matches!(
        dispatch(&message("Plugin.Stream.Player.GetProperties", Json::Null)),
        Dispatch::GetProperties
    ));
    match dispatch(&message("Plugin.Stream.Bogus", Json::Null)) {
        Dispatch::Refuse { code, message } => {
            assert_eq!(code, METHOD_NOT_FOUND);
            assert_eq!(message, "unknown method \"Plugin.Stream.Bogus\"");
        }
        other => panic!("unexpected {other:?}"),
    }
}

#[test]
fn replies_carry_ok_or_an_internal_error() {
    let ok = sent_reply(Json::Number(Some(1)), Ok(()));
    assert_eq!(ok.jsonrpc, "2.0");
    assert!(ok.error.is_none());
    assert!(matches!(ok.result, Some(Json::Text(ref t)) if t == "ok"));
    let err = sent_reply(Json::Text("abc".to_string()), Err("daemon down".to_string()));
    assert!(err.result.is_none());
    let body = err.error.unwrap();
    assert_eq!(body.code, INTERNAL_ERROR);
    assert_eq!(body.message, "daemon down");
}

#[test]
fn error_response_uses_the_given_code() {
    let resp = RpcResponse::err(Json::Text("abc".to_string()), METHOD_NOT_FOUND, "unknown method".to_string());
    assert_eq!(resp.error.as_ref().unwrap().code, -32601);
    assert!(resp.result.is_none());
}

#[test]
fn notifications_have_no_id() {
    let note = RpcNotification::new("Plugin.Stream.Ready".to_string(), None);
    assert_eq!(note.jsonrpc, "2.0");
    assert_eq!(note.method, "Plugin.Stream.Ready");
    assert!(note.params.is_none());
}

#[test]
fn frames_end_with_a_newline() {
    assert_eq!(frame_line("{\"a\":1}"), "{\"a\":1}\n");
}

#[test]
fn buffering_shows_as_paused() {
    assert_eq!(playback_status_name(PlaybackStatus::Playing), "playing");
    assert_eq!(playback_status_name(PlaybackStatus::Buffering), "paused");
    assert_eq!(playback_status_name(PlaybackStatus::Stopped), "stopped");
}

#[test]
fn the_base_url_gets_a_trailing_slash() {
    assert_eq!(normalize_base_url("http://127.0.0.1:4747".to_string()), "http://127.0.0.1:4747/");
    assert_eq!(normalize_base_url("http://h/".to_string()), "http://h/");
}
