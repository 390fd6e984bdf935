//! The signal-path panel's rows: what the engine reports of the path from
//! source to device, each field said to be unknown when the engine cannot
//! observe it, and whether "bit-perfect" means anything for the source.
use vstd::prelude::*;

use crate::format::{
    audio_mode_label, bit_perfect_applicable, bit_perfect_spec, mode_text, opt_chars, AudioMode,
    AudioQuality,
};
use crate::text::owned;

verus! {

/// What the engine reports of the signal path; a field is `None` when the
/// engine cannot observe it.
#[derive(Debug, Clone)]
pub struct SignalPath {
    pub engine: String,
    pub source_format: Option<String>,
    pub decoder: Option<String>,
    pub sink: Option<String>,
    pub device: Option<String>,
    pub device_format: Option<String>,
    pub exclusive: bool,
    pub converted: Option<String>,
    pub volume_applied: bool,
    pub replaygain_applied: bool,
    pub bit_perfect: Option<bool>,
}

/// A reported value, or "Unknown".
pub open spec fn opt_text(value: Option<Seq<char>>) -> Seq<char> {
    match value {
        Some(v) => v,
        None => "Unknown"@,
    }
}

pub fn opt(value: &Option<String>) -> (r: String)
    ensures
        r@ == opt_text(opt_chars(*value)),
{
    match value {
        Some(v) => v.clone(),
        None => owned("Unknown"),
    }
}

pub open spec fn yes_no_text(value: bool) -> Seq<char> {
    if value {
        "Yes"@
    } else {
        "No"@
    }
}

pub fn yes_no(value: bool) -> (r: String)
    ensures
        r@ == yes_no_text(value),
{
    if value {
        owned("Yes")
    } else {
        owned("No")
    }
}

/// The bit-perfect row's value: not applicable for a lossy source, else
/// what the engine reports.
pub open spec fn bit_perfect_text(
    reported: Option<bool>,
    codec: Option<Seq<char>>,
    quality: Option<AudioQuality>,
) -> Seq<char> {
    if !bit_perfect_spec(codec, quality) {
        "lossy source, bit-perfect not applicable"@
    } else {
        match reported {
            Some(true) => "Yes"@,
            Some(false) => "No"@,
            None => "Unknown (engine does not report this)"@,
        }
    }
}

/// The panel's rows, label and value, in display order.
pub open spec fn rows_spec(
    sp: SignalPath,
    mode: Option<AudioMode>,
    codec: Option<Seq<char>>,
    quality: Option<AudioQuality>,
) -> Seq<(Seq<char>, Seq<char>)> {
    seq![
        ("Engine"@, sp.engine@),
        ("Source format"@, opt_text(opt_chars(sp.source_format))),
        ("Decoder"@, opt_text(opt_chars(sp.decoder))),
        ("Sink"@, opt_text(opt_chars(sp.sink))),
        ("Device"@, opt_text(opt_chars(sp.device))),
        ("Device format"@, opt_text(opt_chars(sp.device_format))),
        ("Audio mode"@, mode_text(mode)),
        ("Mode"@, if sp.exclusive {
            "Exclusive"@
        } else {
            "Shared"@
        }),
        ("Converted"@, match opt_chars(sp.converted) {
            Some(c) => c,
            None => "No"@,
        }),
        ("Volume applied"@, yes_no_text(sp.volume_applied)),
        ("ReplayGain applied"@, yes_no_text(sp.replaygain_applied)),
        ("Bit-perfect"@, bit_perfect_text(sp.bit_perfect, codec, quality)),
    ]
}

pub open spec fn rows_view(rows: Seq<(&'static str, String)>) -> Seq<(Seq<char>, Seq<char>)> {
    rows.map_values(|r: (&'static str, String)| (r.0@, r.1@))
}

/// The rows the panel shows for a signal path and the stream's audio mode,
/// codec and delivered quality.
pub fn panel_rows(
    sp: &SignalPath,
    mode: Option<AudioMode>,
    codec: &Option<String>,
    quality: Option<AudioQuality>,
) -> (r: Vec<(&'static str, String)>)
    ensures
        rows_view(r@) == rows_spec(*sp, mode, opt_chars(*codec), quality),
{
    let mut rows: Vec<(&'static str, String)> = Vec::new();
    rows.push(("Engine", sp.engine.clone()));
    rows.push(("Source format", opt(&sp.source_format)));
    rows.push(("Decoder", opt(&sp.decoder)));
    rows.push(("Sink", opt(&sp.sink)));
    rows.push(("Device", opt(&sp.device)));
    rows.push(("Device format", opt(&sp.device_format)));
    rows.push(("Audio mode", owned(audio_mode_label(mode))));
    rows.push(
        (
            "Mode",
            if sp.exclusive {
                owned("Exclusive")
            } else {
                owned("Shared")
            },
        ),
    );
    rows.push(
        (
            "Converted",
            match &sp.converted {
                Some(c) => c.clone(),
                None => owned("No"),
            },
        ),
    );
    rows.push(("Volume applied", yes_no(sp.volume_applied)));
    rows.push(("ReplayGain applied", yes_no(sp.replaygain_applied)));
    let bit_perfect = if !bit_perfect_applicable(codec, quality) {
        owned("lossy source, bit-perfect not applicable")
    } else {
        match sp.bit_perfect {
            Some(true) => owned("Yes"),
            Some(false) => owned("No"),
            None => owned("Unknown (engine does not report this)"),
        }
    };
    rows.push(("Bit-perfect", bit_perfect));
    assert(rows_view(rows@) =~= rows_spec(*sp, mode, opt_chars(*codec), quality));
    rows
}

} // verus!
