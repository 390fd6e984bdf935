//! The system tray's platform-independent part: what each menu entry means
//! and which player command (if any) a tray event sends, plus the "now
//! playing" tooltip text.
use vstd::prelude::*;

use crate::proto::Command;
use crate::text::owned;

verus! {

/// What a tray interaction means.
#[derive(Debug, Clone, Copy, PartialEq, Eq)]
pub enum TrayEvent {
    ShowMain,
    HideMain,
    PlayPause,
    Next,
    Previous,
    Quit,
}

/// The menu every tray backend builds, in order.
pub fn menu_entries() -> (r: Vec<(&'static str, TrayEvent)>)
    ensures
        r@.len() == 6,
        r@[0].0@ == "Show"@ && r@[0].1 == TrayEvent::ShowMain,
        r@[1].0@ == "Hide"@ && r@[1].1 == TrayEvent::HideMain,
        r@[2].0@ == "Play/Pause"@ && r@[2].1 == TrayEvent::PlayPause,
        r@[3].0@ == "Next"@ && r@[3].1 == TrayEvent::Next,
        r@[4].0@ == "Previous"@ && r@[4].1 == TrayEvent::Previous,
        r@[5].0@ == "Quit"@ && r@[5].1 == TrayEvent::Quit,
{
    vec![
        ("Show", TrayEvent::ShowMain),
        ("Hide", TrayEvent::HideMain),
        ("Play/Pause", TrayEvent::PlayPause),
        ("Next", TrayEvent::Next),
        ("Previous", TrayEvent::Previous),
        ("Quit", TrayEvent::Quit),
    ]
}

/// Which command a tray event sends; window and process lifecycle events
/// (show, hide, quit) are not commands.
pub fn tray_event_to_command(event: TrayEvent) -> (r: Option<Command>)
    ensures
        match event {
            TrayEvent::PlayPause => r matches Some(Command::TogglePlayPause),
            TrayEvent::Next => r matches Some(Command::Next),
            TrayEvent::Previous => r matches Some(Command::Previous),
            _ => r is None,
        },
{
    match event {
        TrayEvent::PlayPause => Some(Command::TogglePlayPause),
        TrayEvent::Next => Some(Command::Next),
        TrayEvent::Previous => Some(Command::Previous),
        TrayEvent::ShowMain | TrayEvent::HideMain | TrayEvent::Quit => None,
    }
}

/// The tooltip: "title — artists" when both are known and non-empty, the
/// title alone when only it is, else the app's name.
pub open spec fn now_playing_spec(title: Option<Seq<char>>, artists: Option<Seq<char>>) -> Seq<char> {
    match (title, artists) {
        (Some(t), Some(a)) if t.len() > 0 && a.len() > 0 => t + " — "@ + a,
        (Some(t), _) if t.len() > 0 => t,
        _ => "streamboat"@,
    }
}

pub open spec fn opt_str(o: Option<&str>) -> Option<Seq<char>> {
    match o {
        Some(s) => Some(s@),
        None => None,
    }
}

pub fn now_playing_text(title: Option<&str>, artists: Option<&str>) -> (r: String)
    ensures
        r@ == now_playing_spec(opt_str(title), opt_str(artists)),
{
    match title {
        Some(t) => {
            let tn = t.unicode_len();
            if tn > 0 {
                match artists {
                    Some(a) => {
                        if a.unicode_len() > 0 {
                            let mut s = owned(t);
                            s.append(" — ");
                            s.append(a);
                            return s;
                        }
                    },
                    None => {},
                }
                return owned(t);
            }
        },
        None => {},
    }
    owned("streamboat")
}

} // verus!
