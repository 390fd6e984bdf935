//! The player commands the shell sends: a model of the control protocol's
//! `Command` for every command the shell's own logic decides on.
use vstd::prelude::*;

use crate::actions::QueuePosition;

verus! {

/// A command for the player. Track lists carry track ids, in order.
#[derive(Debug, Clone)]
pub enum Command {
    Play { items: Vec<u64> },
    Enqueue { items: Vec<u64>, position: QueuePosition },
    TogglePlayPause,
    Pause,
    Resume,
    Stop,
    Next,
    Previous,
    Seek { position_ms: u64 },
    MoveQueueItem { from: usize, to: usize },
    RemoveQueueItem { index: usize },
}

} // verus!
