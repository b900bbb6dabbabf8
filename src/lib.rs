//! Wire protocol for the RuneCast word game, with the reliable-delivery layer
//! that carries it: sequence-numbered envelopes, piggyback acknowledgment, a
//! replay log for session resumption, and a compatibility shim that lets
//! legacy (unenveloped) and enveloped peers talk to each other.

pub mod player;
pub mod protocol;

pub use player::{PlayerContext, PlayerIdentity};
pub use protocol::{
    AdminGameInfo, ClientMessage, Envelope, ErrorCode, GameSnapshot, GameState, Grid, GridCell,
    LobbySnapshot, MaybeEnveloped, Multiplier, PlayerInfo, Position, ServerMessage, TimerVoteState,
};
