//! Typed values exchanged with the engine's JSON control API.
//!
//! The engine answers every call with a small envelope object whose payload
//! sits under a `response` or `result` key, next to an optional `error`
//! string. Every payload field is optional on the wire: a field the engine
//! did not send decodes to `None` rather than to a default value.

use vstd::prelude::*;

verus! {

/// Envelope for calls whose payload arrives under the `response` key.
pub struct AceResponse<T> {
    pub response: T,
    pub error: Option<String>,
}

/// Envelope for calls whose payload arrives under the `result` key.
pub struct AceResult<T> {
    pub result: T,
    pub error: Option<String>,
}

/// A playback target registered with the engine.
pub struct Player {
    pub protocol: Option<String>,
    pub icon: Option<String>,
    /// The `type` field of the wire format.
    pub kind: Option<String>,
    pub id: Option<String>,
    pub name: Option<String>,
}

/// Per-identifier metadata the engine returns when a stream is registered.
pub struct Stream {
    pub command_url: Option<String>,
    pub is_live: Option<usize>,
    pub playback_session_id: Option<String>,
    pub playback_url: Option<String>,
    pub stat_url: Option<String>,
}

/// A point-in-time transfer snapshot for one stream.
pub struct Stat {
    pub downloaded: Option<usize>,
    pub peers: Option<usize>,
    pub playback_session_id: Option<String>,
    pub progress: Option<usize>,
    pub speed_down: Option<usize>,
    pub speed_up: Option<usize>,
    pub status: Option<String>,
    pub time: Option<usize>,
    pub total_progress: Option<usize>,
    pub uploaded: Option<usize>,
}

/// The view of an optional string: its characters, where it is there.
pub open spec fn opt_str_view(o: Option<String>) -> Option<Seq<char>> {
    match o {
        Some(s) => Some(s@),
        None => None,
    }
}

/// The view of a player description.
pub struct PlayerView {
    pub protocol: Option<Seq<char>>,
    pub icon: Option<Seq<char>>,
    pub kind: Option<Seq<char>>,
    pub id: Option<Seq<char>>,
    pub name: Option<Seq<char>>,
}

impl View for Player {
    type V = PlayerView;

    open spec fn view(&self) -> PlayerView {
        PlayerView {
            protocol: opt_str_view(self.protocol),
            icon: opt_str_view(self.icon),
            kind: opt_str_view(self.kind),
            id: opt_str_view(self.id),
            name: opt_str_view(self.name),
        }
    }
}

/// The view of a stream's metadata.
pub struct StreamView {
    pub command_url: Option<Seq<char>>,
    pub is_live: Option<usize>,
    pub playback_session_id: Option<Seq<char>>,
    pub playback_url: Option<Seq<char>>,
    pub stat_url: Option<Seq<char>>,
}

impl View for Stream {
    type V = StreamView;

    open spec fn view(&self) -> StreamView {
        StreamView {
            command_url: opt_str_view(self.command_url),
            is_live: self.is_live,
            playback_session_id: opt_str_view(self.playback_session_id),
            playback_url: opt_str_view(self.playback_url),
            stat_url: opt_str_view(self.stat_url),
        }
    }
}

/// The view of a transfer snapshot.
pub struct StatView {
    pub downloaded: Option<usize>,
    pub peers: Option<usize>,
    pub playback_session_id: Option<Seq<char>>,
    pub progress: Option<usize>,
    pub speed_down: Option<usize>,
    pub speed_up: Option<usize>,
    pub status: Option<Seq<char>>,
    pub time: Option<usize>,
    pub total_progress: Option<usize>,
    pub uploaded: Option<usize>,
}

impl View for Stat {
    type V = StatView;

    open spec fn view(&self) -> StatView {
        StatView {
            downloaded: self.downloaded,
            peers: self.peers,
            playback_session_id: opt_str_view(self.playback_session_id),
            progress: self.progress,
            speed_down: self.speed_down,
            speed_up: self.speed_up,
            status: opt_str_view(self.status),
            time: self.time,
            total_progress: self.total_progress,
            uploaded: self.uploaded,
        }
    }
}

} // verus!
