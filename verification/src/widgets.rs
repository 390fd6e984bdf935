//! Which small badges ("chips") a view shows, and in which tone.
use vstd::prelude::*;

use crate::format::{badge_text, quality_badge, AudioQuality};
use crate::text::owned;

verus! {

/// The colour family of a chip or banner.
#[derive(Debug, Clone, Copy, PartialEq, Eq, Structural)]
pub enum ChipTone {
    Accent,
    Muted,
    Warning,
    Danger,
}

/// One chip: its text and its tone.
#[derive(Debug, Clone, PartialEq, Eq)]
pub struct Badge {
    pub label: String,
    pub tone: ChipTone,
}

/// A badge taken as its text and its tone.
pub open spec fn badge_view(b: Badge) -> (Seq<char>, ChipTone) {
    (b.label@, b.tone)
}

/// The playback bar's chips: the delivered quality, the output mode, and a
/// warning when only a preview clip is playing.
pub open spec fn playback_badges_spec(
    quality: Option<AudioQuality>,
    exclusive: bool,
    preview: bool,
) -> Seq<(Seq<char>, ChipTone)> {
    let base = seq![
        (badge_text(quality), ChipTone::Accent),
        (if exclusive { "EXCLUSIVE"@ } else { "SHARED"@ }, ChipTone::Muted),
    ];
    if preview {
        base.push(("PREVIEW"@, ChipTone::Warning))
    } else {
        base
    }
}

/// The playback bar's chips, in the order they are shown.
pub fn playback_badges(quality: Option<AudioQuality>, exclusive: bool, preview: bool) -> (r: Vec<
    Badge,
>)
    ensures
        r@.map_values(|b: Badge| badge_view(b)) == playback_badges_spec(quality, exclusive, preview),
{
    let mut r: Vec<Badge> = Vec::new();
    r.push(Badge { label: quality_badge(quality), tone: ChipTone::Accent });
    let mode = if exclusive {
        owned("EXCLUSIVE")
    } else {
        owned("SHARED")
    };
    r.push(Badge { label: mode, tone: ChipTone::Muted });
    if preview {
        r.push(Badge { label: owned("PREVIEW"), tone: ChipTone::Warning });
    }
    r
}

/// A video page's chips: a warning for explicit content, then the
/// delivered quality as the service names it.
pub open spec fn video_badges_spec(explicit: Option<bool>, quality: Option<Seq<char>>) -> Seq<
    (Seq<char>, ChipTone),
> {
    let first: Seq<(Seq<char>, ChipTone)> = if explicit == Some(true) {
        seq![("EXPLICIT"@, ChipTone::Warning)]
    } else {
        seq![]
    };
    match quality {
        Some(q) => first.push((q, ChipTone::Muted)),
        None => first,
    }
}

/// The video page's chips, in the order they are shown.
pub fn video_badges(explicit: Option<bool>, quality: Option<String>) -> (r: Vec<Badge>)
    ensures
        r@.map_values(|b: Badge| badge_view(b)) == video_badges_spec(
            explicit,
            match quality {
                Some(q) => Some(q@),
                None => None,
            },
        ),
{
    let mut r: Vec<Badge> = Vec::new();
    if explicit == Some(true) {
        r.push(Badge { label: owned("EXPLICIT"), tone: ChipTone::Warning });
    }
    match quality {
        Some(q) => r.push(Badge { label: q, tone: ChipTone::Muted }),
        None => {},
    }
    r
}

} // verus!
