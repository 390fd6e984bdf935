//! Snapcast's stream-plugin protocol: newline-delimited JSON-RPC 2.0
//! between snapserver and the plugin. This module holds the framing values,
//! the mapping of `Plugin.Stream.Player.Control` and `SetProperty` calls to
//! player commands, the choice of what each incoming method does, and the
//! replies; reading stdin, talking to the daemon and JSON text happen
//! outside.
use vstd::prelude::*;

use crate::json::{json_get, opt_text, Json};
use crate::proto::Command;
use crate::text::{debug_quoted, push_str, same_text, str_debug, string_from_chars};

verus! {

/// JSON-RPC 2.0's reserved error codes.
pub const PARSE_ERROR: i64 = -32700;
pub const INVALID_REQUEST: i64 = -32600;
pub const METHOD_NOT_FOUND: i64 = -32601;
pub const INVALID_PARAMS: i64 = -32602;
pub const INTERNAL_ERROR: i64 = -32603;

/// A request or notification snapserver sends; no id marks a notification.
#[derive(Debug)]
pub struct RpcMessage {
    pub id: Option<Json>,
    pub method: String,
    pub params: Json,
}

#[derive(Debug)]
pub struct RpcErrorBody {
    pub code: i64,
    pub message: String,
}

/// A response to a message that carried an id: exactly one of `result` and
/// `error` is set.
#[derive(Debug)]
pub struct RpcResponse {
    pub jsonrpc: &'static str,
    pub id: Json,
    pub result: Option<Json>,
    pub error: Option<RpcErrorBody>,
}

/// A notification the plugin sends: no id at all.
#[derive(Debug)]
pub struct RpcNotification {
    pub jsonrpc: &'static str,
    pub method: String,
    pub params: Option<Json>,
}

impl RpcResponse {
    pub fn ok(id: Json, result: Json) -> (r: RpcResponse)
        ensures
            r.jsonrpc@ == "2.0"@,
            r.id == id,
            r.result == Some(result),
            r.error is None,
    {
        RpcResponse { jsonrpc: "2.0", id, result: Some(result), error: None }
    }

    pub fn err(id: Json, code: i64, message: String) -> (r: RpcResponse)
        ensures
            r.jsonrpc@ == "2.0"@,
            r.id == id,
            r.result is None,
            r.error matches Some(b) && b.code == code && b.message@ == message@,
    {
        RpcResponse { jsonrpc: "2.0", id, result: None, error: Some(RpcErrorBody { code, message }) }
    }
}

impl RpcNotification {
    pub fn new(method: String, params: Option<Json>) -> (r: RpcNotification)
        ensures
            r.jsonrpc@ == "2.0"@,
            r.method@ == method@,
            r.params == params,
    {
        RpcNotification { jsonrpc: "2.0", method, params }
    }
}

/// One frame on the wire: the encoded message and a newline.
pub fn frame_line(encoded: &str) -> (r: String)
    ensures
        r@ == encoded@.push('\n'),
{
    let mut v: Vec<char> = Vec::new();
    push_str(encoded, &mut v);
    v.push('\n');
    string_from_chars(&v)
}

/// What one `Plugin.Stream.Player.Control` call asks for: a command to send
/// as it is, or a seek whose seconds are the call's `params.offset`
/// (relative to the current position) or `params.position` (absolute).
#[derive(Debug)]
pub enum ControlAction {
    Send(Command),
    RelativeSeek,
    AbsoluteSeek,
}

/// What a `SetProperty` call asks for: a volume, in percent, read from the
/// call's `value`.
#[derive(Debug, Clone, Copy, PartialEq, Eq)]
pub enum PropertyAction {
    SetVolumePercent,
}

pub open spec fn is_number(v: Option<Json>) -> bool {
    v matches Some(Json::Number(_))
}

pub open spec fn nested(params: Json, key: Seq<char>) -> Option<Json> {
    match json_get(params, "params"@) {
        Some(p) => json_get(p, key),
        None => None,
    }
}

/// The action and command a `Control` call's `command` names.
pub open spec fn control_spec(params: Json) -> Result<ControlAction, (i64, Seq<char>)> {
    match opt_text(json_get(params, "command"@)) {
        None => Err((INVALID_PARAMS, "Control: missing \"command\""@)),
        Some(c) => if c == "play"@ {
            Ok(ControlAction::Send(Command::Resume))
        } else if c == "pause"@ {
            Ok(ControlAction::Send(Command::Pause))
        } else if c == "playPause"@ {
            Ok(ControlAction::Send(Command::TogglePlayPause))
        } else if c == "stop"@ {
            Ok(ControlAction::Send(Command::Stop))
        } else if c == "next"@ {
            Ok(ControlAction::Send(Command::Next))
        } else if c == "previous"@ {
            Ok(ControlAction::Send(Command::Previous))
        } else if c == "seek"@ {
            if is_number(nested(params, "offset"@)) {
                Ok(ControlAction::RelativeSeek)
            } else {
                Err((INVALID_PARAMS, "seek: missing \"offset\""@))
            }
        } else if c == "setPosition"@ {
            if is_number(nested(params, "position"@)) {
                Ok(ControlAction::AbsoluteSeek)
            } else {
                Err((INVALID_PARAMS, "setPosition: missing \"position\""@))
            }
        } else {
            Err((INVALID_PARAMS, "Control: unknown command "@ + str_debug(c)))
        },
    }
}

pub open spec fn err_view<T>(r: Result<T, (i64, String)>) -> Result<T, (i64, Seq<char>)> {
    match r {
        Ok(a) => Ok(a),
        Err((code, m)) => Err((code, m@)),
    }
}

fn text_field(v: &Json, key: &str) -> (r: Option<String>)
    ensures
        opt_chars_of(r) == opt_text(json_get(*v, key@)),
{
    match v {
        Json::Object(fields) => crate::json::field_text(fields, key),
        _ => None,
    }
}

pub open spec fn opt_chars_of(o: Option<String>) -> Option<Seq<char>> {
    crate::format::opt_chars(o)
}

fn number_field(v: &Json, key: &str) -> (r: bool)
    ensures
        r == is_number(json_get(*v, key@)),
{
    match v {
        Json::Object(fields) => match crate::json::find_field(fields, key) {
            Some(i) => matches!(fields[i].1, Json::Number(_)),
            None => false,
        },
        _ => false,
    }
}

fn nested_number(v: &Json, key: &str) -> (r: bool)
    ensures
        r == is_number(nested(*v, key@)),
{
    match v {
        Json::Object(fields) => match crate::json::find_field(fields, "params") {
            Some(i) => number_field(&fields[i].1, key),
            None => false,
        },
        _ => false,
    }
}

fn message(s: &str) -> (r: String)
    ensures
        r@ == s@,
{
    crate::text::owned(s)
}

fn joined2(a: &str, b: &str) -> (r: String)
    ensures
        r@ == a@ + b@,
{
    let mut v: Vec<char> = Vec::new();
    push_str(a, &mut v);
    push_str(b, &mut v);
    string_from_chars(&v)
}

fn joined(a: &str, b: &str, c: &str) -> (r: String)
    ensures
        r@ == a@ + b@ + c@,
{
    let mut v: Vec<char> = Vec::new();
    push_str(a, &mut v);
    push_str(b, &mut v);
    push_str(c, &mut v);
    string_from_chars(&v)
}

/// Maps a `Control` call's parameters to what it asks for; an unknown or
/// missing command, or a seek without its seconds, is an invalid-params
/// error (the method itself is known).
pub fn control_action(params: &Json) -> (r: Result<ControlAction, (i64, String)>)
    ensures
        err_view(r) == control_spec(*params),
{
    let command = match text_field(params, "command") {
        Some(c) => c,
        None => return Err((INVALID_PARAMS, message("Control: missing \"command\""))),
    };
    let c = command.as_str();
    if same_text(c, "play") {
        Ok(ControlAction::Send(Command::Resume))
    } else if same_text(c, "pause") {
        Ok(ControlAction::Send(Command::Pause))
    } else if same_text(c, "playPause") {
        Ok(ControlAction::Send(Command::TogglePlayPause))
    } else if same_text(c, "stop") {
        Ok(ControlAction::Send(Command::Stop))
    } else if same_text(c, "next") {
        Ok(ControlAction::Send(Command::Next))
    } else if same_text(c, "previous") {
        Ok(ControlAction::Send(Command::Previous))
    } else if same_text(c, "seek") {
        if nested_number(params, "offset") {
            Ok(ControlAction::RelativeSeek)
        } else {
            Err((INVALID_PARAMS, message("seek: missing \"offset\"")))
        }
    } else if same_text(c, "setPosition") {
        if nested_number(params, "position") {
            Ok(ControlAction::AbsoluteSeek)
        } else {
            Err((INVALID_PARAMS, message("setPosition: missing \"position\"")))
        }
    } else {
        let quoted = debug_quoted(c);
        Err((INVALID_PARAMS, joined2("Control: unknown command ", quoted.as_str())))
    }
}

/// What a `SetProperty` call asks for: only `volume` with a number value.
pub open spec fn property_spec(params: Json) -> Result<PropertyAction, (i64, Seq<char>)> {
    match opt_text(json_get(params, "property"@)) {
        None => Err((INVALID_PARAMS, "SetProperty: missing \"property\""@)),
        Some(p) => if p == "volume"@ {
            if is_number(json_get(params, "value"@)) {
                Ok(PropertyAction::SetVolumePercent)
            } else {
                Err((INVALID_PARAMS, "SetProperty volume: missing \"value\""@))
            }
        } else {
            Err(
                (
                    INVALID_PARAMS,
                    "SetProperty: "@ + str_debug(p) + " is not supported by streamboat"@,
                ),
            )
        },
    }
}

/// Maps a `SetProperty` call to what it asks for; every property but
/// `volume` is refused with an invalid-params error.
pub fn set_property_action(params: &Json) -> (r: Result<PropertyAction, (i64, String)>)
    ensures
        err_view(r) == property_spec(*params),
{
    let property = match text_field(params, "property") {
        Some(p) => p,
        None => return Err((INVALID_PARAMS, message("SetProperty: missing \"property\""))),
    };
    let p = property.as_str();
    if same_text(p, "volume") {
        if number_field(params, "value") {
            Ok(PropertyAction::SetVolumePercent)
        } else {
            Err((INVALID_PARAMS, message("SetProperty volume: missing \"value\"")))
        }
    } else {
        let quoted = debug_quoted(p);
        Err(
            (
                INVALID_PARAMS,
                joined("SetProperty: ", quoted.as_str(), " is not supported by streamboat"),
            ),
        )
    }
}

/// What the plugin does with one incoming request.
#[derive(Debug)]
pub enum Dispatch {
    /// Carry out a control action, then answer "ok" or an internal error.
    Control(ControlAction),
    /// Carry out a property change, then answer the same way.
    Property(PropertyAction),
    /// Answer with the current player properties.
    GetProperties,
    /// Answer with this error straight away.
    Refuse { code: i64, message: String },
}

/// The plan for an incoming request: which of the three methods it calls
/// and what that asks for, or the error to answer with.
pub open spec fn plan_ok(method: Seq<char>, params: Json, d: Dispatch) -> bool {
    if method == "Plugin.Stream.Player.Control"@ {
        match control_spec(params) {
            Ok(a) => d == Dispatch::Control(a),
            Err((code, m)) => d matches Dispatch::Refuse { code: c, message } && c == code
                && message@ == m,
        }
    } else if method == "Plugin.Stream.Player.SetProperty"@ {
        match property_spec(params) {
            Ok(a) => d == Dispatch::Property(a),
            Err((code, m)) => d matches Dispatch::Refuse { code: c, message } && c == code
                && message@ == m,
        }
    } else if method == "Plugin.Stream.Player.GetProperties"@ {
        d is GetProperties
    } else {
        d matches Dispatch::Refuse { code, message } && code == METHOD_NOT_FOUND && message@
            == "unknown method "@ + str_debug(method)
    }
}

/// Decides what an incoming request does.
pub fn dispatch(msg: &RpcMessage) -> (d: Dispatch)
    ensures
        plan_ok(msg.method@, msg.params, d),
{
    let m = msg.method.as_str();
    if same_text(m, "Plugin.Stream.Player.Control") {
        match control_action(&msg.params) {
            Ok(a) => Dispatch::Control(a),
            Err((code, message)) => Dispatch::Refuse { code, message },
        }
    } else if same_text(m, "Plugin.Stream.Player.SetProperty") {
        match set_property_action(&msg.params) {
            Ok(a) => Dispatch::Property(a),
            Err((code, message)) => Dispatch::Refuse { code, message },
        }
    } else if same_text(m, "Plugin.Stream.Player.GetProperties") {
        Dispatch::GetProperties
    } else {
        let quoted = debug_quoted(m);
        Dispatch::Refuse {
            code: METHOD_NOT_FOUND,
            message: joined2("unknown method ", quoted.as_str()),
        }
    }
}

/// The answer once a command was sent, or failed to be.
pub fn sent_reply(id: Json, outcome: Result<(), String>) -> (r: RpcResponse)
    ensures
        r.jsonrpc@ == "2.0"@,
        r.id == id,
        match outcome {
            Ok(()) => r.error is None && (r.result matches Some(Json::Text(t)) && t@ == "ok"@),
            Err(e) => r.result is None && (r.error matches Some(b) && b.code == INTERNAL_ERROR
                && b.message@ == e@),
        },
{
    match outcome {
        Ok(()) => RpcResponse::ok(id, Json::Text(message("ok"))),
        Err(e) => RpcResponse::err(id, INTERNAL_ERROR, e),
    }
}

/// The player's transport state.
#[derive(Debug, Clone, Copy, PartialEq, Eq)]
pub enum PlaybackStatus {
    Playing,
    Paused,
    Buffering,
    Stopped,
}

pub open spec fn status_text(s: PlaybackStatus) -> Seq<char> {
    match s {
        PlaybackStatus::Playing => "playing"@,
        PlaybackStatus::Paused | PlaybackStatus::Buffering => "paused"@,
        PlaybackStatus::Stopped => "stopped"@,
    }
}

/// The `playbackStatus` Snapcast shows for a player state; buffering shows
/// as paused.
pub fn playback_status_name(s: PlaybackStatus) -> (r: &'static str)
    ensures
        r@ == status_text(s),
{
    match s {
        PlaybackStatus::Playing => "playing",
        PlaybackStatus::Paused | PlaybackStatus::Buffering => "paused",
        PlaybackStatus::Stopped => "stopped",
    }
}

/// The base URL every call is built on, with the trailing slash that the
/// paths after it rely on.
pub open spec fn base_with_slash(base: Seq<char>) -> Seq<char> {
    if base.len() > 0 && base.last() == '/' {
        base
    } else {
        base.push('/')
    }
}

pub fn normalize_base_url(base: String) -> (r: String)
    ensures
        r@ == base_with_slash(base@),
{
    let v = crate::text::chars_of(base.as_str());
    if v.len() > 0 && v[v.len() - 1] == '/' {
        base
    } else {
        let mut w = v;
        w.push('/');
        string_from_chars(&w)
    }
}

/// A call to one of the plugin's own methods is never answered "method not
/// found": a Control or SetProperty call with bad or unsupported
/// parameters is refused as invalid parameters, and GetProperties is always
/// answered with the properties. Only an unknown method gets "method not
/// found".
pub proof fn law_known_methods_refuse_only_bad_params(method: Seq<char>, params: Json, d: Dispatch)
    requires
        plan_ok(method, params, d),
    ensures
        d matches Dispatch::Refuse { code, .. } ==> (code == INVALID_PARAMS && (method
            == "Plugin.Stream.Player.Control"@ || method == "Plugin.Stream.Player.SetProperty"@))
            || (code == METHOD_NOT_FOUND && method != "Plugin.Stream.Player.Control"@ && method
            != "Plugin.Stream.Player.SetProperty"@ && method
            != "Plugin.Stream.Player.GetProperties"@),
        method == "Plugin.Stream.Player.GetProperties"@ ==> d is GetProperties,
        control_spec(params) matches Err((code, _)) ==> code == INVALID_PARAMS,
        property_spec(params) matches Err((code, _)) ==> code == INVALID_PARAMS,
{
    reveal_strlit("Plugin.Stream.Player.Control");
    reveal_strlit("Plugin.Stream.Player.SetProperty");
    reveal_strlit("Plugin.Stream.Player.GetProperties");
    assert("Plugin.Stream.Player.GetProperties"@.len() != "Plugin.Stream.Player.Control"@.len());
    assert("Plugin.Stream.Player.GetProperties"@.len()
        != "Plugin.Stream.Player.SetProperty"@.len());
}

} // verus!
