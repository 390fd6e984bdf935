//! Login: the device-code flow (code, verification URL, "open browser",
//! polling) and the PKCE flow with either the pasted redirect or the
//! loopback capture. The flows themselves run outside; this is the state
//! machine that starts them, follows them and shows their errors.
use vstd::prelude::*;

use crate::format::opt_chars;
use crate::text::{decimal, decimal_string, push_str, string_from_chars};

verus! {

/// The port the loopback capture listens on.
pub const LOOPBACK_PORT: u16 = 17893;

#[derive(Debug, Clone, Copy, PartialEq, Eq)]
pub enum Mode {
    DeviceCode,
    PkcePaste,
    PkceLoopback,
}

/// The redirect the loopback capture asks TIDAL for.
pub open spec fn loopback_redirect() -> Seq<char> {
    "http://127.0.0.1:"@ + decimal(LOOPBACK_PORT as nat) + "/callback"@
}

pub fn loopback_redirect_url() -> (r: String)
    ensures
        r@ == loopback_redirect(),
{
    let mut v: Vec<char> = Vec::new();
    push_str("http://127.0.0.1:", &mut v);
    let port = decimal_string(LOOPBACK_PORT as u64);
    push_str(port.as_str(), &mut v);
    push_str("/callback", &mut v);
    string_from_chars(&v)
}

/// A started device-code authorisation: the code to enter, the URL to
/// enter it at, and the flow's own handle `D`.
#[derive(Debug, Clone)]
pub struct DeviceAuth<D> {
    pub user_code: String,
    pub verification_url: String,
    pub data: D,
}

/// A started PKCE session: the URL to log in at, and the session handle `S`.
#[derive(Debug, Clone)]
pub struct PkceSession<S> {
    pub authorize_url: String,
    pub data: S,
}

pub struct State<D, S> {
    pub mode: Mode,
    pub device_auth: Option<DeviceAuth<D>>,
    pub pkce: Option<PkceSession<S>>,
    pub paste_input: String,
    pub error: Option<String>,
    pub busy: bool,
}

pub struct LoginView<D, S> {
    pub mode: Mode,
    pub device_auth: Option<DeviceAuth<D>>,
    pub pkce: Option<PkceSession<S>>,
    pub paste_input: Seq<char>,
    pub error: Option<Seq<char>>,
    pub busy: bool,
}

impl<D, S> View for State<D, S> {
    type V = LoginView<D, S>;

    open spec fn view(&self) -> LoginView<D, S> {
        LoginView {
            mode: self.mode,
            device_auth: self.device_auth,
            pkce: self.pkce,
            paste_input: self.paste_input@,
            error: opt_chars(self.error),
            busy: self.busy,
        }
    }
}

#[derive(Debug)]
pub enum Message<D, S> {
    SelectMode(Mode),
    StartFlow,
    DeviceAuthReady(Result<DeviceAuth<D>, String>),
    PkceReady(Result<PkceSession<S>, String>),
    OpenBrowser,
    PasteInputChanged(String),
    /// Continue with the pasted redirect: the authorisation code read from
    /// it, or why none could be.
    SubmitPaste(Result<String, String>),
    LoopbackCodeReady(Result<String, String>),
    LoginFinished(Result<(), String>),
}

/// Work the screen needs done.
#[derive(Debug, Clone)]
pub enum Request {
    StartDeviceFlow,
    /// Start a PKCE session, redirecting to `redirect` when given.
    StartPkce { redirect: Option<String> },
    /// Poll for the device-code flow's token.
    WaitForDeviceToken,
    CaptureLoopback,
    /// Exchange an authorisation code through the PKCE session.
    ExchangeCode { code: String },
    OpenBrowser { url: String },
}

/// What the shell must do: the login succeeded.
#[derive(Debug, Clone, Copy, PartialEq, Eq)]
pub enum Effect {
    LoggedIn,
}

/// The URL "open browser" opens: the device-code verification URL, else
/// the PKCE session's login URL.
pub open spec fn browser_url<D, S>(s: LoginView<D, S>) -> Option<Seq<char>> {
    match s.device_auth {
        Some(a) => Some(a.verification_url@),
        None => match s.pkce {
            Some(p) => Some(p.authorize_url@),
            None => None,
        },
    }
}

/// The screen's answer to one message: `post` is the screen after `pre`
/// handled `message`, and `r` the request and effect it produced.
pub open spec fn login_step<D, S>(
    pre: LoginView<D, S>,
    message: Message<D, S>,
    post: LoginView<D, S>,
    r: (Option<Request>, Option<Effect>),
) -> bool {
    match message {
        Message::SelectMode(m) => post == (LoginView {
            mode: m,
            error: None,
            ..pre
        }) && r == (None::<Request>, None::<Effect>),
        Message::StartFlow => post == (LoginView {
            error: None,
            busy: true,
            ..pre
        }) && r.1 is None && match pre.mode {
            Mode::DeviceCode => r.0 matches Some(Request::StartDeviceFlow),
            Mode::PkcePaste => r.0 matches Some(Request::StartPkce { redirect: None }),
            Mode::PkceLoopback => r.0 matches Some(Request::StartPkce { redirect: Some(u) })
                && u@ == loopback_redirect(),
        },
        Message::DeviceAuthReady(Ok(auth)) => post == (LoginView {
            busy: false,
            device_auth: Some(auth),
            ..pre
        }) && r.1 is None && (r.0 matches Some(Request::WaitForDeviceToken)),
        Message::DeviceAuthReady(Err(e)) => post == (LoginView {
            busy: false,
            error: Some(e@),
            ..pre
        }) && r == (None::<Request>, None::<Effect>),
        Message::PkceReady(Ok(session)) => r.1 is None && if pre.mode
            == Mode::PkceLoopback {
            post == (LoginView { busy: true, pkce: Some(session), ..pre })
                && (r.0 matches Some(Request::CaptureLoopback))
        } else {
            post == (LoginView { busy: false, pkce: Some(session), ..pre })
                && r.0 is None
        },
        Message::PkceReady(Err(e)) => post == (LoginView {
            busy: false,
            error: Some(e@),
            ..pre
        }) && r == (None::<Request>, None::<Effect>),
        Message::OpenBrowser => post == pre && r.1 is None && match browser_url(
            pre,
        ) {
            Some(u) => r.0 matches Some(Request::OpenBrowser { url }) && url@ == u,
            None => r.0 is None,
        },
        Message::PasteInputChanged(v) => post == (LoginView {
            paste_input: v@,
            ..pre
        }) && r == (None::<Request>, None::<Effect>),
        Message::SubmitPaste(code) => r.1 is None && if pre.pkce is None {
            post == pre && r.0 is None
        } else {
            match code {
                Ok(c) => post == (LoginView {
                    busy: true,
                    error: None,
                    ..pre
                }) && (r.0 matches Some(Request::ExchangeCode { code: c2 }) && c2@ == c@),
                Err(e) => post == (LoginView { error: Some(e@), ..pre })
                    && r.0 is None,
            }
        },
        Message::LoopbackCodeReady(Ok(c)) => post == pre && r.1 is None
            && if pre.pkce is None {
            r.0 is None
        } else {
            r.0 matches Some(Request::ExchangeCode { code: c2 }) && c2@ == c@
        },
        Message::LoopbackCodeReady(Err(e)) => post == (LoginView {
            busy: false,
            error: Some(e@),
            ..pre
        }) && r == (None::<Request>, None::<Effect>),
        Message::LoginFinished(Ok(())) => post == (LoginView {
            busy: false,
            error: None,
            ..pre
        }) && r == (None::<Request>, Some(Effect::LoggedIn)),
        Message::LoginFinished(Err(e)) => post == (LoginView {
            busy: false,
            error: Some(e@),
            ..pre
        }) && r == (None::<Request>, None::<Effect>),
    }
}

impl<D, S> State<D, S> {
    pub fn new() -> (r: State<D, S>)
        ensures
            r@ == (LoginView::<D, S> {
                mode: Mode::DeviceCode,
                device_auth: None,
                pkce: None,
                paste_input: Seq::empty(),
                error: None,
                busy: false,
            }),
    {
        State {
            mode: Mode::DeviceCode,
            device_auth: None,
            pkce: None,
            paste_input: String::new(),
            error: None,
            busy: false,
        }
    }

    pub fn update(&mut self, message: Message<D, S>) -> (r: (Option<Request>, Option<Effect>))
        ensures
            login_step(old(self)@, message, final(self)@, r),
    {
        match message {
            Message::SelectMode(m) => {
                self.mode = m;
                self.error = None;
                (None, None)
            },
            Message::StartFlow => {
                self.error = None;
                self.busy = true;
                match self.mode {
                    Mode::DeviceCode => (Some(Request::StartDeviceFlow), None),
                    Mode::PkcePaste => (Some(Request::StartPkce { redirect: None }), None),
                    Mode::PkceLoopback => (
                        Some(Request::StartPkce { redirect: Some(loopback_redirect_url()) }),
                        None,
                    ),
                }
            },
            Message::DeviceAuthReady(Ok(auth)) => {
                self.busy = false;
                self.device_auth = Some(auth);
                (Some(Request::WaitForDeviceToken), None)
            },
            Message::DeviceAuthReady(Err(e)) => {
                self.busy = false;
                self.error = Some(e);
                (None, None)
            },
            Message::PkceReady(Ok(session)) => {
                let capture = matches!(self.mode, Mode::PkceLoopback);
                self.busy = false;
                self.pkce = Some(session);
                if capture {
                    self.busy = true;
                    (Some(Request::CaptureLoopback), None)
                } else {
                    (None, None)
                }
            },
            Message::PkceReady(Err(e)) => {
                self.busy = false;
                self.error = Some(e);
                (None, None)
            },
            Message::OpenBrowser => {
                let url = match &self.device_auth {
                    Some(a) => Some(a.verification_url.clone()),
                    None => match &self.pkce {
                        Some(p) => Some(p.authorize_url.clone()),
                        None => None,
                    },
                };
                match url {
                    Some(url) => (Some(Request::OpenBrowser { url }), None),
                    None => (None, None),
                }
            },
            Message::PasteInputChanged(v) => {
                self.paste_input = v;
                (None, None)
            },
            Message::SubmitPaste(code) => {
                if self.pkce.is_none() {
                    return (None, None);
                }
                match code {
                    Ok(c) => {
                        self.busy = true;
                        self.error = None;
                        (Some(Request::ExchangeCode { code: c }), None)
                    },
                    Err(e) => {
                        self.error = Some(e);
                        (None, None)
                    },
                }
            },
            Message::LoopbackCodeReady(Ok(c)) => {
                if self.pkce.is_none() {
                    return (None, None);
                }
                (Some(Request::ExchangeCode { code: c }), None)
            },
            Message::LoopbackCodeReady(Err(e)) => {
                self.busy = false;
                self.error = Some(e);
                (None, None)
            },
            Message::LoginFinished(Ok(())) => {
                self.busy = false;
                self.error = None;
                (None, Some(Effect::LoggedIn))
            },
            Message::LoginFinished(Err(e)) => {
                self.busy = false;
                self.error = Some(e);
                (None, None)
            },
        }
    }
}

/// The shell is told the user is logged in on exactly one message: a
/// login that finished successfully; and every failure the screen is told
/// of is shown as its error and stops the busy state.
pub proof fn law_only_a_finished_login_logs_in<D, S>(
    pre: LoginView<D, S>,
    message: Message<D, S>,
    post: LoginView<D, S>,
    r: (Option<Request>, Option<Effect>),
)
    requires
        login_step(pre, message, post, r),
    ensures
        r.1 is Some <==> message matches Message::LoginFinished(Ok(())),
        message matches Message::LoginFinished(Err(e)) ==> post.error == Some(e@) && !post.busy,
        message matches Message::DeviceAuthReady(Err(e)) ==> post.error == Some(e@)
            && !post.busy,
        message matches Message::PkceReady(Err(e)) ==> post.error == Some(e@) && !post.busy,
        message matches Message::LoopbackCodeReady(Err(e)) ==> post.error == Some(e@)
            && !post.busy,
{
}

/// With a login session under way, the code read from a pasted redirect
/// (or caught on the loopback) is exchanged exactly as read; with none,
/// nothing is exchanged.
pub proof fn law_code_is_exchanged_as_read<D, S>(
    pre: LoginView<D, S>,
    code: String,
    post: LoginView<D, S>,
    r: (Option<Request>, Option<Effect>),
    post2: LoginView<D, S>,
    r2: (Option<Request>, Option<Effect>),
)
    requires
        login_step(pre, Message::SubmitPaste(Ok(code)), post, r),
        login_step(pre, Message::LoopbackCodeReady(Ok(code)), post2, r2),
    ensures
        pre.pkce is Some ==> (r.0 matches Some(Request::ExchangeCode { code: c }) && c@ == code@),
        pre.pkce is Some ==> (r2.0 matches Some(Request::ExchangeCode { code: c }) && c@ == code@),
        pre.pkce is None ==> r.0 is None && r2.0 is None,
{
}

} // verus!
