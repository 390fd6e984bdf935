//! The Settings screen's state: quality ceiling, output mode with its
//! device or snapserver address, ReplayGain, play reporting, theme,
//! credentials and key storage; and the translation between that form and
//! the persisted settings.
use vstd::prelude::*;

use crate::format::{opt_chars, AudioQuality};
use crate::text::{decimal, decimal_string, owned, parse_u16, parse_u16_spec, trim, trimmed};

verus! {

/// The snapserver port the form falls back to.
pub const DEFAULT_SNAPCAST_PORT: u16 = 4953;

/// The snapserver host the form falls back to.
pub open spec fn default_host() -> Seq<char> {
    "127.0.0.1"@
}

fn default_host_string() -> (r: String)
    ensures
        r@ == default_host(),
{
    owned("127.0.0.1")
}

/// The output modes the screen offers, one per kind of output.
#[derive(Debug, Clone, Copy, PartialEq, Eq)]
pub enum OutputMode {
    Shared,
    Exclusive,
    Snapcast,
}

pub open spec fn mode_text(m: OutputMode) -> Seq<char> {
    match m {
        OutputMode::Shared => "Shared"@,
        OutputMode::Exclusive => "Exclusive (bit-perfect)"@,
        OutputMode::Snapcast => "Snapcast (multiroom)"@,
    }
}

impl OutputMode {
    /// Every mode, in picker order.
    pub fn all() -> (r: [OutputMode; 3])
        ensures
            r@ == seq![OutputMode::Shared, OutputMode::Exclusive, OutputMode::Snapcast],
    {
        [OutputMode::Shared, OutputMode::Exclusive, OutputMode::Snapcast]
    }

    /// The mode's name in the picker.
    pub fn label(self) -> (r: &'static str)
        ensures
            r@ == mode_text(self),
    {
        match self {
            OutputMode::Shared => "Shared",
            OutputMode::Exclusive => "Exclusive (bit-perfect)",
            OutputMode::Snapcast => "Snapcast (multiroom)",
        }
    }
}

/// Where playback goes: a shared (mixed) device, a device held exclusively
/// for bit-perfect output, or a snapserver.
#[derive(Debug, Clone, PartialEq, Eq)]
pub enum OutputConfig {
    Exclusive { device: String },
    Shared { device: Option<String> },
    Snapcast { host: String, port: u16 },
}

pub enum OutputView {
    Exclusive { device: Seq<char> },
    Shared { device: Option<Seq<char>> },
    Snapcast { host: Seq<char>, port: u16 },
}

pub open spec fn output_view(o: OutputConfig) -> OutputView {
    match o {
        OutputConfig::Exclusive { device } => OutputView::Exclusive { device: device@ },
        OutputConfig::Shared { device } => OutputView::Shared { device: opt_chars(device) },
        OutputConfig::Snapcast { host, port } => OutputView::Snapcast { host: host@, port },
    }
}

/// What the persisted settings hold of the fields this screen edits: the
/// effective quality ceiling and output, the ReplayGain mode `G`, play
/// reporting, the theme `H`, the four credentials and the key storage
/// policy `K`.
#[derive(Debug, Clone)]
pub struct Settings<G, H, K> {
    pub quality_ceiling: AudioQuality,
    pub output: OutputConfig,
    pub replay_gain_mode: G,
    pub play_reporting: bool,
    pub theme: H,
    pub client_id: Option<String>,
    pub client_secret: Option<String>,
    pub pkce_client_id: Option<String>,
    pub pkce_client_secret: Option<String>,
    pub key_storage: K,
}

pub struct SettingsView<G, H, K> {
    pub quality_ceiling: AudioQuality,
    pub output: OutputView,
    pub replay_gain_mode: G,
    pub play_reporting: bool,
    pub theme: H,
    pub client_id: Option<Seq<char>>,
    pub client_secret: Option<Seq<char>>,
    pub pkce_client_id: Option<Seq<char>>,
    pub pkce_client_secret: Option<Seq<char>>,
    pub key_storage: K,
}

impl<G, H, K> View for Settings<G, H, K> {
    type V = SettingsView<G, H, K>;

    open spec fn view(&self) -> SettingsView<G, H, K> {
        SettingsView {
            quality_ceiling: self.quality_ceiling,
            output: output_view(self.output),
            replay_gain_mode: self.replay_gain_mode,
            play_reporting: self.play_reporting,
            theme: self.theme,
            client_id: opt_chars(self.client_id),
            client_secret: opt_chars(self.client_secret),
            pkce_client_id: opt_chars(self.pkce_client_id),
            pkce_client_secret: opt_chars(self.pkce_client_secret),
            key_storage: self.key_storage,
        }
    }
}

/// Which quality tiers this build's decoders can play.
#[derive(Debug, Clone, Copy, PartialEq, Eq)]
pub struct DecoderSupport {
    pub low: bool,
    pub high: bool,
    pub lossless: bool,
    pub hi_res_lossless: bool,
}

/// The quality ladder, best first.
pub open spec fn ladder() -> Seq<AudioQuality> {
    seq![AudioQuality::HiResLossless, AudioQuality::Lossless, AudioQuality::High, AudioQuality::Low]
}

/// Whether `support` can decode the ladder tier `q`.
pub open spec fn reachable(support: DecoderSupport, q: AudioQuality) -> bool {
    match q {
        AudioQuality::HiResLossless => support.hi_res_lossless,
        AudioQuality::Lossless => support.lossless,
        AudioQuality::High => support.high,
        AudioQuality::Low => support.low,
        AudioQuality::HiResLegacy => support.hi_res_lossless,
    }
}

/// The ladder tiers `support` cannot decode, best first.
pub open spec fn unreachable_tiers(support: DecoderSupport) -> Seq<AudioQuality> {
    ladder().filter(|q: AudioQuality| !reachable(support, q))
}

/// The tiers the ceiling picker offers: every decodable one, and the
/// current ceiling even when it is not.
pub open spec fn offered(unreachable: Seq<AudioQuality>, ceiling: AudioQuality) -> Seq<
    AudioQuality,
> {
    ladder().filter(offered_pred(unreachable, ceiling))
}

pub open spec fn offered_pred(unreachable: Seq<AudioQuality>, ceiling: AudioQuality) -> spec_fn(
    AudioQuality,
) -> bool {
    |q: AudioQuality| !unreachable.contains(q) || q == ceiling
}

/// A text field as the settings keep it: trimmed, and none when blank.
pub open spec fn kept(s: Seq<char>) -> Option<Seq<char>> {
    if trim(s).len() == 0 {
        None
    } else {
        Some(trim(s))
    }
}

/// An optional setting as the form shows it: empty when unset.
pub open spec fn shown(s: Option<Seq<char>>) -> Seq<char> {
    match s {
        Some(t) => t,
        None => Seq::empty(),
    }
}

/// A trimmed text field as the settings keep it (`s.trim()`, or none when
/// that is empty).
pub fn non_empty(s: &str) -> (r: Option<String>)
    ensures
        opt_chars(r) == kept(s@),
{
    let t = trimmed(s);
    if t.as_str().is_empty() {
        None
    } else {
        Some(t)
    }
}

#[derive(Debug)]
pub struct State<G, H, K> {
    pub quality_ceiling: AudioQuality,
    pub output_mode: OutputMode,
    pub output_device: String,
    pub snapcast_host: String,
    pub snapcast_port: String,
    pub replay_gain_mode: G,
    pub play_reporting_enabled: bool,
    pub theme: H,
    pub client_id: String,
    pub client_secret: String,
    pub pkce_client_id: String,
    pub pkce_client_secret: String,
    pub key_storage: K,
    pub key_location: String,
    pub unreachable: Vec<AudioQuality>,
    pub saved: bool,
    pub error: Option<String>,
}

pub struct FormView<G, H, K> {
    pub quality_ceiling: AudioQuality,
    pub output_mode: OutputMode,
    pub output_device: Seq<char>,
    pub snapcast_host: Seq<char>,
    pub snapcast_port: Seq<char>,
    pub replay_gain_mode: G,
    pub play_reporting_enabled: bool,
    pub theme: H,
    pub client_id: Seq<char>,
    pub client_secret: Seq<char>,
    pub pkce_client_id: Seq<char>,
    pub pkce_client_secret: Seq<char>,
    pub key_storage: K,
    pub key_location: Seq<char>,
    pub unreachable: Seq<AudioQuality>,
    pub saved: bool,
    pub error: Option<Seq<char>>,
}

impl<G, H, K> View for State<G, H, K> {
    type V = FormView<G, H, K>;

    open spec fn view(&self) -> FormView<G, H, K> {
        FormView {
            quality_ceiling: self.quality_ceiling,
            output_mode: self.output_mode,
            output_device: self.output_device@,
            snapcast_host: self.snapcast_host@,
            snapcast_port: self.snapcast_port@,
            replay_gain_mode: self.replay_gain_mode,
            play_reporting_enabled: self.play_reporting_enabled,
            theme: self.theme,
            client_id: self.client_id@,
            client_secret: self.client_secret@,
            pkce_client_id: self.pkce_client_id@,
            pkce_client_secret: self.pkce_client_secret@,
            key_storage: self.key_storage,
            key_location: self.key_location@,
            unreachable: self.unreachable@,
            saved: self.saved,
            error: opt_chars(self.error),
        }
    }
}

/// The form's output fields for a persisted output: mode, device, host
/// and port text.
pub open spec fn output_fields(o: OutputView) -> (OutputMode, Seq<char>, Seq<char>, Seq<char>) {
    match o {
        OutputView::Exclusive { device } => (
            OutputMode::Exclusive,
            device,
            default_host(),
            decimal(DEFAULT_SNAPCAST_PORT as nat),
        ),
        OutputView::Shared { device } => (
            OutputMode::Shared,
            shown(device),
            default_host(),
            decimal(DEFAULT_SNAPCAST_PORT as nat),
        ),
        OutputView::Snapcast { host, port } => (
            OutputMode::Snapcast,
            Seq::empty(),
            host,
            decimal(port as nat),
        ),
    }
}

/// The form freshly filled from `s`.
pub open spec fn form_of<G, H, K>(s: SettingsView<G, H, K>, key_location: Seq<char>) -> FormView<
    G,
    H,
    K,
> {
    let (mode, device, host, port) = output_fields(s.output);
    FormView {
        quality_ceiling: s.quality_ceiling,
        output_mode: mode,
        output_device: device,
        snapcast_host: host,
        snapcast_port: port,
        replay_gain_mode: s.replay_gain_mode,
        play_reporting_enabled: s.play_reporting,
        theme: s.theme,
        client_id: shown(s.client_id),
        client_secret: shown(s.client_secret),
        pkce_client_id: shown(s.pkce_client_id),
        pkce_client_secret: shown(s.pkce_client_secret),
        key_storage: s.key_storage,
        key_location,
        unreachable: Seq::empty(),
        saved: true,
        error: None,
    }
}

/// The output the form describes.
pub open spec fn output_of<G, H, K>(f: FormView<G, H, K>) -> OutputView {
    match f.output_mode {
        OutputMode::Exclusive => OutputView::Exclusive { device: f.output_device },
        OutputMode::Shared => OutputView::Shared {
            device: if f.output_device.len() == 0 {
                None
            } else {
                Some(f.output_device)
            },
        },
        OutputMode::Snapcast => OutputView::Snapcast {
            host: if trim(f.snapcast_host).len() == 0 {
                default_host()
            } else {
                trim(f.snapcast_host)
            },
            port: match parse_u16_spec(trim(f.snapcast_port)) {
                Some(p) => p,
                None => DEFAULT_SNAPCAST_PORT,
            },
        },
    }
}

/// The settings the form writes back.
pub open spec fn settings_of<G, H, K>(f: FormView<G, H, K>) -> SettingsView<G, H, K> {
    SettingsView {
        quality_ceiling: f.quality_ceiling,
        output: output_of(f),
        replay_gain_mode: f.replay_gain_mode,
        play_reporting: f.play_reporting_enabled,
        theme: f.theme,
        client_id: kept(f.client_id),
        client_secret: kept(f.client_secret),
        pkce_client_id: kept(f.pkce_client_id),
        pkce_client_secret: kept(f.pkce_client_secret),
        key_storage: f.key_storage,
    }
}

#[derive(Debug)]
pub enum Message<G, H, K> {
    QualityChanged(AudioQuality),
    OutputModeChanged(OutputMode),
    OutputDeviceChanged(String),
    SnapcastHostChanged(String),
    SnapcastPortChanged(String),
    ReplayGainChanged(G),
    PlayReportingToggled(bool),
    ThemeChanged(H),
    ClientIdChanged(String),
    ClientSecretChanged(String),
    PkceClientIdChanged(String),
    PkceClientSecretChanged(String),
    KeyStorageChanged(K),
    Save,
    Saved(Result<(), String>),
    Logout,
    LoggedOut,
}

/// What the shell must do beyond this screen's own fields: persist them
/// (through [`State::apply_to`]), react to a theme change, log out, or go
/// back to Login after a logout.
#[derive(Debug, Clone, Copy, PartialEq, Eq)]
pub enum Effect<H> {
    Save,
    ThemeChanged(H),
    Logout,
    LoggedOut,
}

/// The message a finished logout comes back as.
pub fn logout_finished<G, H, K>(r: Result<(), String>) -> (m: Message<G, H, K>)
    ensures
        match r {
            Ok(()) => m is LoggedOut,
            Err(e) => m matches Message::Saved(Err(e2)) && e2 == e,
        },
{
    match r {
        Ok(()) => Message::LoggedOut,
        Err(e) => Message::Saved(Err(e)),
    }
}

/// The form's answer to one message: `n` is the form after `s` handled
/// `message`, and `r` what the shell has to do.
pub open spec fn form_step<G, H, K>(
    s: FormView<G, H, K>,
    message: Message<G, H, K>,
    n: FormView<G, H, K>,
    r: Option<Effect<H>>,
) -> bool {
    match message {
        Message::QualityChanged(q) => n == (FormView {
            quality_ceiling: q,
            saved: false,
            ..s
        }) && r is None,
        Message::OutputModeChanged(m) => n == (FormView {
            output_mode: m,
            saved: false,
            ..s
        }) && r is None,
        Message::OutputDeviceChanged(v) => n == (FormView {
            output_device: v@,
            saved: false,
            ..s
        }) && r is None,
        Message::SnapcastHostChanged(v) => n == (FormView {
            snapcast_host: v@,
            saved: false,
            ..s
        }) && r is None,
        Message::SnapcastPortChanged(v) => n == (FormView {
            snapcast_port: v@,
            saved: false,
            ..s
        }) && r is None,
        Message::ReplayGainChanged(g) => n == (FormView {
            replay_gain_mode: g,
            saved: false,
            ..s
        }) && r is None,
        Message::PlayReportingToggled(v) => n == (FormView {
            play_reporting_enabled: v,
            saved: false,
            ..s
        }) && r is None,
        Message::ThemeChanged(t) => n == (FormView {
            theme: t,
            saved: false,
            ..s
        }) && r == Some(Effect::ThemeChanged(t)),
        Message::ClientIdChanged(v) => n == (FormView {
            client_id: v@,
            saved: false,
            ..s
        }) && r is None,
        Message::ClientSecretChanged(v) => n == (FormView {
            client_secret: v@,
            saved: false,
            ..s
        }) && r is None,
        Message::PkceClientIdChanged(v) => n == (FormView {
            pkce_client_id: v@,
            saved: false,
            ..s
        }) && r is None,
        Message::PkceClientSecretChanged(v) => n == (FormView {
            pkce_client_secret: v@,
            saved: false,
            ..s
        }) && r is None,
        Message::KeyStorageChanged(k) => n == (FormView {
            key_storage: k,
            saved: false,
            ..s
        }) && r is None,
        Message::Save => n == (FormView {
            saved: true,
            error: None,
            ..s
        }) && r == Some(Effect::<H>::Save),
        Message::Saved(Ok(())) => n == s && r is None,
        Message::Saved(Err(e)) => n == (FormView {
            error: Some(e@),
            ..s
        }) && r is None,
        Message::Logout => n == s && r == Some(Effect::<H>::Logout),
        Message::LoggedOut => n == s && r == Some(
            Effect::<H>::LoggedOut,
        ),
    }
}

impl<G: Copy, H: Copy, K: Copy> State<G, H, K> {
    /// The form filled from the persisted settings.
    pub fn from_settings(settings: &Settings<G, H, K>, key_location: String) -> (r: State<G, H, K>)
        ensures
            r@ == form_of(settings@, key_location@),
    {
        let (output_mode, output_device, snapcast_host, snapcast_port) = match &settings.output {
            OutputConfig::Exclusive { device } => (
                OutputMode::Exclusive,
                device.clone(),
                default_host_string(),
                decimal_string(DEFAULT_SNAPCAST_PORT as u64),
            ),
            OutputConfig::Shared { device } => (
                OutputMode::Shared,
                match device {
                    Some(d) => d.clone(),
                    None => String::new(),
                },
                default_host_string(),
                decimal_string(DEFAULT_SNAPCAST_PORT as u64),
            ),
            OutputConfig::Snapcast { host, port } => (
                OutputMode::Snapcast,
                String::new(),
                host.clone(),
                decimal_string(*port as u64),
            ),
        };
        State {
            quality_ceiling: settings.quality_ceiling,
            output_mode,
            output_device,
            snapcast_host,
            snapcast_port,
            replay_gain_mode: settings.replay_gain_mode,
            play_reporting_enabled: settings.play_reporting,
            theme: settings.theme,
            client_id: or_empty(&settings.client_id),
            client_secret: or_empty(&settings.client_secret),
            pkce_client_id: or_empty(&settings.pkce_client_id),
            pkce_client_secret: or_empty(&settings.pkce_client_secret),
            key_storage: settings.key_storage,
            key_location,
            unreachable: Vec::new(),
            saved: true,
            error: None,
        }
    }

    /// Records which tiers the decoder probe found unplayable, so the
    /// picker offers only what this build can play.
    pub fn with_decoder_support(self, support: DecoderSupport) -> (r: State<G, H, K>)
        ensures
            r@ == (FormView { unreachable: unreachable_tiers(support), ..self@ }),
    {
        let mut s = self;
        let mut v: Vec<AudioQuality> = Vec::new();
        if !support.hi_res_lossless {
            v.push(AudioQuality::HiResLossless);
        }
        if !support.lossless {
            v.push(AudioQuality::Lossless);
        }
        if !support.high {
            v.push(AudioQuality::High);
        }
        if !support.low {
            v.push(AudioQuality::Low);
        }
        proof {
            reveal_with_fuel(Seq::filter, 5);
            let l = ladder();
            assert(l.drop_last().drop_last().drop_last().drop_last() =~= Seq::<AudioQuality>::empty());
            assert(v@ =~= unreachable_tiers(support));
        }
        s.unreachable = v;
        s
    }

    /// The tiers the ceiling picker offers.
    pub fn offered_tiers(&self) -> (r: Vec<AudioQuality>)
        ensures
            r@ == offered(self@.unreachable, self@.quality_ceiling),
    {
        let tiers: [AudioQuality; 4] = [
            AudioQuality::HiResLossless,
            AudioQuality::Lossless,
            AudioQuality::High,
            AudioQuality::Low,
        ];
        let mut out: Vec<AudioQuality> = Vec::new();
        let mut i: usize = 0;
        assert(tiers@ == ladder());
        while i < 4
            invariant
                i <= 4,
                tiers@ == ladder(),
                out@ == ladder().subrange(0, i as int).filter(
                    offered_pred(self@.unreachable, self@.quality_ceiling),
                ),
            decreases 4 - i,
        {
            let q = tiers[i];
            let keep = !contains_quality(&self.unreachable, q) || same_quality(
                q,
                self.quality_ceiling,
            );
            proof {
                let t = ladder().subrange(0, i + 1);
                assert(t.drop_last() =~= ladder().subrange(0, i as int));
                assert(t.last() == q);
                reveal_with_fuel(Seq::filter, 1);
            }
            if keep {
                out.push(q);
            }
            i = i + 1;
        }
        assert(ladder().subrange(0, 4) =~= ladder());
        out
    }

    /// Handles one message: every edit marks the form unsaved.
    pub fn update(&mut self, message: Message<G, H, K>) -> (r: Option<Effect<H>>)
        ensures
            form_step(old(self)@, message, final(self)@, r),
    {
        match message {
            Message::QualityChanged(q) => {
                self.quality_ceiling = q;
                self.saved = false;
                None
            },
            Message::OutputModeChanged(m) => {
                self.output_mode = m;
                self.saved = false;
                None
            },
            Message::OutputDeviceChanged(v) => {
                self.output_device = v;
                self.saved = false;
                None
            },
            Message::SnapcastHostChanged(v) => {
                self.snapcast_host = v;
                self.saved = false;
                None
            },
            Message::SnapcastPortChanged(v) => {
                self.snapcast_port = v;
                self.saved = false;
                None
            },
            Message::ReplayGainChanged(g) => {
                self.replay_gain_mode = g;
                self.saved = false;
                None
            },
            Message::PlayReportingToggled(v) => {
                self.play_reporting_enabled = v;
                self.saved = false;
                None
            },
            Message::ThemeChanged(t) => {
                self.theme = t;
                self.saved = false;
                Some(Effect::ThemeChanged(t))
            },
            Message::ClientIdChanged(v) => {
                self.client_id = v;
                self.saved = false;
                None
            },
            Message::ClientSecretChanged(v) => {
                self.client_secret = v;
                self.saved = false;
                None
            },
            Message::PkceClientIdChanged(v) => {
                self.pkce_client_id = v;
                self.saved = false;
                None
            },
            Message::PkceClientSecretChanged(v) => {
                self.pkce_client_secret = v;
                self.saved = false;
                None
            },
            Message::KeyStorageChanged(k) => {
                self.key_storage = k;
                self.saved = false;
                None
            },
            Message::Save => {
                self.saved = true;
                self.error = None;
                Some(Effect::Save)
            },
            Message::Saved(Ok(())) => None,
            Message::Saved(Err(e)) => {
                self.error = Some(e);
                None
            },
            Message::Logout => Some(Effect::Logout),
            Message::LoggedOut => Some(Effect::LoggedOut),
        }
    }

    /// Writes the form into the persisted settings and returns the output
    /// to apply live.
    pub fn apply_to(&self, settings: &mut Settings<G, H, K>) -> (r: OutputConfig)
        ensures
            final(settings)@ == settings_of(self@),
            output_view(r) == output_of(self@),
    {
        let output = match self.output_mode {
            OutputMode::Exclusive => OutputConfig::Exclusive { device: self.output_device.clone() },
            OutputMode::Shared => OutputConfig::Shared {
                device: if self.output_device.as_str().is_empty() {
                    None
                } else {
                    Some(self.output_device.clone())
                },
            },
            OutputMode::Snapcast => {
                let host = trimmed(self.snapcast_host.as_str());
                let host = if host.as_str().is_empty() {
                    default_host_string()
                } else {
                    host
                };
                let port_text = trimmed(self.snapcast_port.as_str());
                let port = match parse_u16(port_text.as_str()) {
                    Some(p) => p,
                    None => DEFAULT_SNAPCAST_PORT,
                };
                OutputConfig::Snapcast { host, port }
            },
        };
        settings.quality_ceiling = self.quality_ceiling;
        settings.output = copy_output(&output);
        settings.replay_gain_mode = self.replay_gain_mode;
        settings.play_reporting = self.play_reporting_enabled;
        settings.theme = self.theme;
        settings.client_id = non_empty(self.client_id.as_str());
        settings.client_secret = non_empty(self.client_secret.as_str());
        settings.pkce_client_id = non_empty(self.pkce_client_id.as_str());
        settings.pkce_client_secret = non_empty(self.pkce_client_secret.as_str());
        settings.key_storage = self.key_storage;
        output
    }
}

/// A text setting as the form writes it: trimmed and non-blank.
pub open spec fn tidy(s: Seq<char>) -> bool {
    trim(s) == s && s.len() > 0
}

pub open spec fn tidy_opt(s: Option<Seq<char>>) -> bool {
    match s {
        Some(t) => tidy(t),
        None => true,
    }
}

/// Settings in the shape the form writes them: credentials trimmed and
/// non-blank when set, a shared device named only when non-empty, a
/// snapserver host trimmed and non-blank.
pub open spec fn tidy_settings<G, H, K>(s: SettingsView<G, H, K>) -> bool {
    &&& tidy_opt(s.client_id)
    &&& tidy_opt(s.client_secret)
    &&& tidy_opt(s.pkce_client_id)
    &&& tidy_opt(s.pkce_client_secret)
    &&& match s.output {
        OutputView::Shared { device: Some(d) } => d.len() > 0,
        OutputView::Snapcast { host, port: _ } => tidy(host),
        _ => true,
    }
}

proof fn lemma_kept_shown(s: Option<Seq<char>>)
    requires
        tidy_opt(s),
    ensures
        kept(shown(s)) == s,
{
    match s {
        Some(t) => {},
        None => {
            assert(trim(Seq::<char>::empty()) =~= Seq::<char>::empty());
        },
    }
}

/// Filling the form from settings in the shape the form writes, and
/// writing it straight back, gives the same settings.
pub proof fn law_form_round_trip<G, H, K>(s: SettingsView<G, H, K>, key_location: Seq<char>)
    requires
        tidy_settings(s),
    ensures
        settings_of(form_of(s, key_location)) == s,
{
    lemma_kept_shown(s.client_id);
    lemma_kept_shown(s.client_secret);
    lemma_kept_shown(s.pkce_client_id);
    lemma_kept_shown(s.pkce_client_secret);
    match s.output {
        OutputView::Snapcast { host, port } => {
            crate::text::lemma_parse_decimal(port as nat, 0xffff);
        },
        OutputView::Shared { device } => {
            match device {
                Some(d) => {},
                None => {},
            }
        },
        _ => {},
    }
    assert(settings_of(form_of(s, key_location)).output == s.output);
}

/// Whatever the form holds, the settings it writes are in the shape the
/// form writes: so writing, filling the form again and writing once more
/// gives the same settings.
pub proof fn law_written_settings_are_tidy<G, H, K>(f: FormView<G, H, K>, key_location: Seq<char>)
    ensures
        tidy_settings(settings_of(f)),
        settings_of(form_of(settings_of(f), key_location)) == settings_of(f),
{
    lemma_kept_tidy(f.client_id);
    lemma_kept_tidy(f.client_secret);
    lemma_kept_tidy(f.pkce_client_id);
    lemma_kept_tidy(f.pkce_client_secret);
    crate::text::lemma_trim_idempotent(f.snapcast_host);
    reveal_strlit("127.0.0.1");
    crate::text::lemma_trim_keeps_unpadded(default_host());
    law_form_round_trip(settings_of(f), key_location);
}

proof fn lemma_kept_tidy(s: Seq<char>)
    ensures
        tidy_opt(kept(s)),
{
    crate::text::lemma_trim_idempotent(s);
}

fn copy_output(o: &OutputConfig) -> (r: OutputConfig)
    ensures
        output_view(r) == output_view(*o),
{
    match o {
        OutputConfig::Exclusive { device } => OutputConfig::Exclusive { device: device.clone() },
        OutputConfig::Shared { device } => OutputConfig::Shared {
            device: match device {
                Some(d) => Some(d.clone()),
                None => None,
            },
        },
        OutputConfig::Snapcast { host, port } => OutputConfig::Snapcast {
            host: host.clone(),
            port: *port,
        },
    }
}

fn or_empty(s: &Option<String>) -> (r: String)
    ensures
        r@ == shown(opt_chars(*s)),
{
    match s {
        Some(t) => t.clone(),
        None => String::new(),
    }
}

fn same_quality(a: AudioQuality, b: AudioQuality) -> (r: bool)
    ensures
        r == (a == b),
{
    match (a, b) {
        (AudioQuality::Low, AudioQuality::Low) => true,
        (AudioQuality::High, AudioQuality::High) => true,
        (AudioQuality::Lossless, AudioQuality::Lossless) => true,
        (AudioQuality::HiResLossless, AudioQuality::HiResLossless) => true,
        (AudioQuality::HiResLegacy, AudioQuality::HiResLegacy) => true,
        _ => false,
    }
}

fn contains_quality(v: &Vec<AudioQuality>, q: AudioQuality) -> (r: bool)
    ensures
        r == v@.contains(q),
{
    let mut i: usize = 0;
    while i < v.len()
        invariant
            i <= v@.len(),
            forall|k: int| 0 <= k < i ==> v@[k] != q,
        decreases v.len() - i,
    {
        if same_quality(v[i], q) {
            return true;
        }
        i = i + 1;
    }
    false
}

/// Every edit leaves the form unsaved and is what gets written on the
/// next save: after changing the quality ceiling, the replay-gain mode,
/// play reporting, the theme or the key storage, the settings the form
/// writes hold the new value and every other setting as before; and only
/// a theme change asks the shell for anything at once.
pub proof fn law_edit_is_what_gets_written<G, H, K>(
    s: FormView<G, H, K>,
    message: Message<G, H, K>,
    n: FormView<G, H, K>,
    r: Option<Effect<H>>,
)
    requires
        form_step(s, message, n, r),
    ensures
        message matches Message::QualityChanged(q) ==> settings_of(n) == (SettingsView {
            quality_ceiling: q,
            ..settings_of(s)
        }) && !n.saved && r is None,
        message matches Message::ReplayGainChanged(g) ==> settings_of(n) == (SettingsView {
            replay_gain_mode: g,
            ..settings_of(s)
        }) && !n.saved && r is None,
        message matches Message::PlayReportingToggled(v) ==> settings_of(n) == (SettingsView {
            play_reporting: v,
            ..settings_of(s)
        }) && !n.saved && r is None,
        message matches Message::ThemeChanged(t) ==> settings_of(n) == (SettingsView {
            theme: t,
            ..settings_of(s)
        }) && !n.saved && r == Some(Effect::<H>::ThemeChanged(t)),
        message matches Message::KeyStorageChanged(k) ==> settings_of(n) == (SettingsView {
            key_storage: k,
            ..settings_of(s)
        }) && !n.saved && r is None,
        message is OutputModeChanged || message is OutputDeviceChanged || message
            is SnapcastHostChanged || message is SnapcastPortChanged || message is ClientIdChanged
            || message is ClientSecretChanged || message is PkceClientIdChanged || message
            is PkceClientSecretChanged ==> !n.saved && r is None,
        message is Save ==> n.saved && n.error is None && settings_of(n) == settings_of(s) && r
            == Some(Effect::<H>::Save),
{
}

} // verus!
