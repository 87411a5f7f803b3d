use vstd::prelude::*;

use crate::models::Severity;
use crate::models::Track;

verus! {

/// Track-lifecycle events of one guild, told apart by their `type` tag.
#[derive(Debug)]
#[allow(inconsistent_fields)]
pub enum Event {
    Start { guild_id: u64, track: Track },
    End { guild_id: u64, track: Track, reason: TrackEndReason },
    Exception { guild_id: u64, track: Track, exception: Severity },
    Stuck { guild_id: u64, track: Track, threshold_ms: i32 },
    WebSocketClosed { guild_id: u64, code: i32, reason: String, by_remote: bool },
}

impl Event {
    /// The guild that the event belongs to.
    pub open spec fn guild(&self) -> u64 {
        match self {
            Event::Start { guild_id, .. } => *guild_id,
            Event::End { guild_id, .. } => *guild_id,
            Event::Exception { guild_id, .. } => *guild_id,
            Event::Stuck { guild_id, .. } => *guild_id,
            Event::WebSocketClosed { guild_id, .. } => *guild_id,
        }
    }
}

#[derive(Debug, PartialEq, Eq, Structural, Clone, Copy)]
pub enum TrackEndReason {
    Finished,
    LoadFailed,
    Stopped,
    Replaced,
    Cleanup,
}

} // verus!
