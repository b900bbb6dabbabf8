//! Message types and delivery machinery exchanged between client and server.

pub mod client_messages;
pub mod compat;
pub mod envelope;
pub mod json;
pub mod resume;
pub mod server_messages;
pub mod sessions;
pub mod types;

pub use client_messages::ClientMessage;
pub use envelope::{Envelope, MaybeEnveloped};
pub use server_messages::{GameSnapshot, LobbySnapshot, ServerMessage};
pub use types::{
    AdminGameInfo, ErrorCode, GameChange, GameMode, GamePlayerInfo, GameState, GameSummary, GameType,
    Grid, GridCell, LobbyChange, LobbyGameInfo, LobbyGamePlayerInfo, LobbyPlayerInfo, LobbyType,
    Multiplier, PlayerInfo, Position, ScoreInfo, SpectatorInfo, TimerVoteState, UtcInstant,
};

use vstd::prelude::*;

verus! {

/// Recommended heartbeat interval (client should send heartbeat this often).
pub const HEARTBEAT_INTERVAL_MS: u32 = 30_000;

/// Heartbeat timeout (server closes connection if no heartbeat received).
pub const HEARTBEAT_TIMEOUT_MS: u32 = 45_000;

/// Grace period for reconnection before session expires.
pub const RECONNECT_GRACE_MS: u32 = 60_000;

/// Maximum message size in bytes.
pub const MAX_MESSAGE_SIZE: usize = 65536;

/// Protocol version for compatibility checks.
pub const PROTOCOL_VERSION: &'static str = "1.0.0";

} // verus!
