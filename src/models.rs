use vstd::prelude::*;

pub mod track_events;

use crate::models::track_events::Event;

verus! {

/// Copy of an optional string; the result equals the input.
pub fn copy_opt_string(s: &Option<String>) -> (r: Option<String>)
    ensures
        r == *s,
{
    match s {
        Some(v) => Some(v.clone()),
        None => None,
    }
}

/// First frame of every connection: the node's session id.
#[derive(Debug)]
pub struct Ready {
    pub resumed: bool,
    pub session_id: String,
}

/// Periodic position report of one guild's player.
#[derive(Debug)]
pub struct PlayerUpdate {
    pub guild_id: u64,
    pub state: PlayerState,
}

#[derive(Debug, Clone, Copy)]
pub struct PlayerState {
    pub time: i32,
    pub position: i32,
    pub connected: bool,
    pub ping: i32,
}

/// Node-wide statistics.
#[derive(Debug)]
pub struct Stats {
    pub players: i32,
    pub playing_players: i32,
    pub uptime: i32,
    pub memory: Memory,
    pub cpu: Cpu,
    pub frame_stats: Option<FrameStats>,
}

#[derive(Debug, Clone, Copy)]
pub struct Memory {
    pub free: i64,
    pub used: i64,
    pub allocated: i64,
    pub reservable: i64,
}

/// Processor load. The two loads are fractions that the node sends as
/// 32-bit floating-point numbers; they are kept as their IEEE-754 bit
/// patterns, unchanged.
#[derive(Debug, Clone, Copy)]
pub struct Cpu {
    pub cores: i32,
    pub system_load_bits: u32,
    pub lavalink_load_bits: u32,
}

#[derive(Debug, Clone, Copy)]
pub struct FrameStats {
    pub sent: i32,
    pub nulled: i32,
    /// The difference between the frames sent and the frames expected
    /// (3000 per player, one every 20 ms). Negative when too many were sent,
    /// positive when too few were.
    pub deficit: i32,
}

/// A playable track: the node's opaque handle and its metadata.
#[derive(Debug, Clone)]
pub struct Track {
    pub encoded: String,
    pub info: TrackInfo,
}

#[derive(Debug, Clone)]
pub struct TrackInfo {
    pub identifier: String,
    pub is_seekable: bool,
    pub author: String,
    pub length: i32,
    pub is_stream: bool,
    pub position: i32,
    pub title: String,
    pub uri: Option<String>,
    pub artwork_url: Option<String>,
    pub isrc: Option<String>,
    pub source_name: String,
}

impl TrackInfo {
    /// A field-by-field copy.
    pub fn duplicate(&self) -> (r: TrackInfo)
        ensures
            r == *self,
    {
        TrackInfo {
            identifier: self.identifier.clone(),
            is_seekable: self.is_seekable,
            author: self.author.clone(),
            length: self.length,
            is_stream: self.is_stream,
            position: self.position,
            title: self.title.clone(),
            uri: copy_opt_string(&self.uri),
            artwork_url: copy_opt_string(&self.artwork_url),
            isrc: copy_opt_string(&self.isrc),
            source_name: self.source_name.clone(),
        }
    }
}

impl Track {
    /// A field-by-field copy.
    pub fn duplicate(&self) -> (r: Track)
        ensures
            r == *self,
    {
        Track { encoded: self.encoded.clone(), info: self.info.duplicate() }
    }
}

/// Copy of an optional track; the result equals the input.
pub fn copy_opt_track(t: &Option<Track>) -> (r: Option<Track>)
    ensures
        r == *t,
{
    match t {
        Some(v) => Some(v.duplicate()),
        None => None,
    }
}

/// Outcome of a track search.
#[derive(Debug)]
pub enum LoadTracksResult {
    Track(Track),
    Playlist(Playlist),
    Search(Vec<Track>),
    Empty,
    Error(LavalinkException),
}

#[derive(Debug)]
pub struct PlaylistInfo {
    pub name: String,
    pub selected_track: i32,
}

#[derive(Debug)]
pub struct Playlist {
    pub info: PlaylistInfo,
    pub tracks: Vec<Track>,
}

#[derive(Debug)]
pub struct LavalinkException {
    pub message: Option<String>,
    pub severity: Severity,
    pub cause: String,
}

#[derive(Debug, PartialEq, Eq, Structural, Clone, Copy)]
pub enum Severity {
    Common,
    Suspicious,
    Fault,
}

/// A frame of the event stream, told apart by its `op` tag.
#[derive(Debug)]
pub enum Events {
    Ready(Ready),
    PlayerUpdate(PlayerUpdate),
    Stats(Stats),
    Event(Event),
}

} // verus!
