//! Server-to-client messages, and the rule that decides which of them a
//! resuming client must be sent again.

use super::json::Json;
use super::types::{
    AdminGameInfo, ErrorCode, GameChange, GamePlayerInfo, GameState, Grid, LobbyChange,
    LobbyGameInfo, LobbyPlayerInfo, LobbyType, PlayerInfo, Position, ScoreInfo, SpectatorInfo,
    TimerVoteState,
};
use vstd::prelude::*;

verus! {

/// Messages sent from server to client.
#[derive(Debug)]
pub enum ServerMessage {
    /// Connection handshake greeting.
    Hello { heartbeat_interval_ms: u32, server_version: Option<String> },
    /// Identification accepted; initial state.
    Ready { session_id: String, player_id: String, lobby: Option<LobbySnapshot>, game: Option<GameSnapshot> },
    /// Session resumed; the messages missed meanwhile.
    Resumed { missed_events: Vec<ServerMessage> },
    /// Answer to a heartbeat.
    HeartbeatAck { server_time: u64 },
    /// The session cannot be used or resumed.
    InvalidSession { reason: String },
    /// The player joined a lobby.
    LobbyJoined { lobby_id: String, lobby_code: Option<String>, lobby: LobbySnapshot },
    /// Full lobby state.
    LobbySnapshot { lobby: LobbySnapshot },
    /// Changes to the lobby state.
    LobbyDelta { changes: Vec<LobbyChange> },
    /// The player left the lobby.
    LobbyLeft,
    /// A custom lobby was created.
    CustomLobbyCreated { lobby_id: String, lobby_code: String },
    /// A game started.
    GameStarted { game_id: String, grid: Grid, players: Vec<GamePlayerInfo>, your_turn_order: u8, current_turn: String, round: u8, max_rounds: u8, turn_time_limit: Option<u32> },
    /// Full game state.
    GameSnapshot { game: GameSnapshot },
    /// Changes to the game state.
    GameDelta { changes: Vec<GameChange> },
    /// The game ended.
    GameOver { game_id: String, final_scores: Vec<ScoreInfo>, winner_id: String, is_draw: bool },
    /// The game was cancelled.
    GameCancelled { game_id: String, reason: String },
    /// A player joined the lobby.
    PlayerJoined { player: LobbyPlayerInfo },
    /// A player left.
    PlayerLeft { player_id: String, reason: Option<String> },
    /// A player reconnected.
    PlayerReconnected { player_id: String },
    /// A player disconnected and may still come back.
    PlayerDisconnected { player_id: String, grace_period_seconds: u32 },
    /// A player's ready flag changed.
    PlayerReadyChanged { player_id: String, is_ready: bool },
    /// A word was scored.
    WordScored { player_id: String, word: String, score: i32, path: Vec<Position>, total_score: i32, gems_earned: i32, total_gems: i32, new_grid: Grid },
    /// The turn passed to another player.
    TurnChanged { player_id: String, round: u8, time_remaining: Option<u32> },
    /// A player passed.
    TurnPassed { player_id: String },
    /// A new round began.
    RoundChanged { round: u8, max_rounds: u8 },
    /// The board was shuffled.
    BoardShuffled { player_id: String, new_grid: Grid, gems_spent: i32 },
    /// A tile was swapped.
    TileSwapped { player_id: String, row: usize, col: usize, old_letter: char, new_letter: char, gems_spent: i32 },
    /// A player entered swap mode.
    SwapModeEntered { player_id: String },
    /// A player left swap mode.
    SwapModeExited { player_id: String },
    /// The player now spectates a game.
    SpectatorJoined { game_id: String, game: GameSnapshot },
    /// Someone started spectating.
    SpectatorAdded { spectator: SpectatorInfo },
    /// A spectator left.
    SpectatorRemoved { spectator_id: String },
    /// A spectator joined as player.
    SpectatorBecamePlayer { player_id: String, username: String },
    /// Live view of another player's tile selection.
    SelectionUpdate { player_id: String, game_id: String, positions: Vec<Position> },
    /// State of the turn-timer vote.
    TimerVoteUpdate { state: TimerVoteState },
    /// A turn timer started.
    TurnTimerStarted { target_player_id: String, seconds: u32 },
    /// A turn timer ran out.
    TurnTimerExpired { player_id: String },
    /// Joined a queue (legacy).
    QueueJoined { position: i32, total_in_queue: i32 },
    /// Queue position changed (legacy).
    QueueUpdate { position: i32, total_in_queue: i32 },
    /// Left the queue (legacy).
    QueueLeft,
    /// Games listed for an administrator.
    AdminGamesList { games: Vec<AdminGameInfo> },
    /// A game was deleted by an administrator.
    AdminGameDeleted { game_id: String },
    /// Flat game state for legacy clients.
    GameStateUpdate { game_id: String, state: String, grid: Grid, players: Vec<PlayerInfo>, current_turn: String, round: i32, max_rounds: i32, used_words: Vec<String>, spectators: Vec<SpectatorInfo>, timer_vote_state: TimerVoteState },
    /// Flat lobby state for legacy clients.
    LobbyStateUpdate { lobby_id: String, players: Vec<LobbyPlayerInfo>, games: Vec<LobbyGameInfo> },
    /// Error response.
    Error { code: ErrorCode, message: String, details: Option<Json> },
}

impl ServerMessage {
    /// Error response whose text is the code's standard message.
    pub fn error(code: ErrorCode) -> (r: Self)
        ensures
            r matches ServerMessage::Error { code: c, message, details }
                && c == code && message@ == code.spec_message() && details is None,
    {
        ServerMessage::Error { message: code.message().to_owned(), code, details: None }
    }

    /// Error response with a custom text.
    pub fn error_with_message(code: ErrorCode, message: &str) -> (r: Self)
        ensures
            r matches ServerMessage::Error { code: c, message: m, details }
                && c == code && m@ == message@ && details is None,
    {
        ServerMessage::Error { code, message: message.to_owned(), details: None }
    }

    /// Error response with a custom text and structured details.
    pub fn error_with_details(code: ErrorCode, message: &str, details: Json) -> (r: Self)
        ensures
            r matches ServerMessage::Error { code: c, message: m, details: d }
                && c == code && m@ == message@ && d == Some(details),
    {
        ServerMessage::Error { code, message: message.to_owned(), details: Some(details) }
    }

    /// The message's `type` tag on the wire.
    pub open spec fn spec_message_type(self) -> Seq<char> {
        match self {
            ServerMessage::Hello { .. } => "hello"@,
            ServerMessage::Ready { .. } => "ready"@,
            ServerMessage::Resumed { .. } => "resumed"@,
            ServerMessage::HeartbeatAck { .. } => "heartbeat_ack"@,
            ServerMessage::InvalidSession { .. } => "invalid_session"@,
            ServerMessage::LobbyJoined { .. } => "lobby_joined"@,
            ServerMessage::LobbySnapshot { .. } => "lobby_snapshot"@,
            ServerMessage::LobbyDelta { .. } => "lobby_delta"@,
            ServerMessage::LobbyLeft => "lobby_left"@,
            ServerMessage::CustomLobbyCreated { .. } => "custom_lobby_created"@,
            ServerMessage::GameStarted { .. } => "game_started"@,
            ServerMessage::GameSnapshot { .. } => "game_snapshot"@,
            ServerMessage::GameDelta { .. } => "game_delta"@,
            ServerMessage::GameOver { .. } => "game_over"@,
            ServerMessage::GameCancelled { .. } => "game_cancelled"@,
            ServerMessage::PlayerJoined { .. } => "player_joined"@,
            ServerMessage::PlayerLeft { .. } => "player_left"@,
            ServerMessage::PlayerReconnected { .. } => "player_reconnected"@,
            ServerMessage::PlayerDisconnected { .. } => "player_disconnected"@,
            ServerMessage::PlayerReadyChanged { .. } => "player_ready_changed"@,
            ServerMessage::WordScored { .. } => "word_scored"@,
            ServerMessage::TurnChanged { .. } => "turn_changed"@,
            ServerMessage::TurnPassed { .. } => "turn_passed"@,
            ServerMessage::RoundChanged { .. } => "round_changed"@,
            ServerMessage::BoardShuffled { .. } => "board_shuffled"@,
            ServerMessage::TileSwapped { .. } => "tile_swapped"@,
            ServerMessage::SwapModeEntered { .. } => "swap_mode_entered"@,
            ServerMessage::SwapModeExited { .. } => "swap_mode_exited"@,
            ServerMessage::SpectatorJoined { .. } => "spectator_joined"@,
            ServerMessage::SpectatorAdded { .. } => "spectator_added"@,
            ServerMessage::SpectatorRemoved { .. } => "spectator_removed"@,
            ServerMessage::SpectatorBecamePlayer { .. } => "spectator_became_player"@,
            ServerMessage::SelectionUpdate { .. } => "selection_update"@,
            ServerMessage::TimerVoteUpdate { .. } => "timer_vote_update"@,
            ServerMessage::TurnTimerStarted { .. } => "turn_timer_started"@,
            ServerMessage::TurnTimerExpired { .. } => "turn_timer_expired"@,
            ServerMessage::QueueJoined { .. } => "queue_joined"@,
            ServerMessage::QueueUpdate { .. } => "queue_update"@,
            ServerMessage::QueueLeft => "queue_left"@,
            ServerMessage::AdminGamesList { .. } => "admin_games_list"@,
            ServerMessage::AdminGameDeleted { .. } => "admin_game_deleted"@,
            ServerMessage::GameStateUpdate { .. } => "game_state"@,
            ServerMessage::LobbyStateUpdate { .. } => "lobby_state"@,
            ServerMessage::Error { .. } => "error"@,
        }
    }

    /// The message's `type` tag on the wire.
    pub fn message_type(&self) -> (r: &'static str)
        ensures
            r@ == self.spec_message_type(),
    {
        match self {
            ServerMessage::Hello { .. } => "hello",
            ServerMessage::Ready { .. } => "ready",
            ServerMessage::Resumed { .. } => "resumed",
            ServerMessage::HeartbeatAck { .. } => "heartbeat_ack",
            ServerMessage::InvalidSession { .. } => "invalid_session",
            ServerMessage::LobbyJoined { .. } => "lobby_joined",
            ServerMessage::LobbySnapshot { .. } => "lobby_snapshot",
            ServerMessage::LobbyDelta { .. } => "lobby_delta",
            ServerMessage::LobbyLeft => "lobby_left",
            ServerMessage::CustomLobbyCreated { .. } => "custom_lobby_created",
            ServerMessage::GameStarted { .. } => "game_started",
            ServerMessage::GameSnapshot { .. } => "game_snapshot",
            ServerMessage::GameDelta { .. } => "game_delta",
            ServerMessage::GameOver { .. } => "game_over",
            ServerMessage::GameCancelled { .. } => "game_cancelled",
            ServerMessage::PlayerJoined { .. } => "player_joined",
            ServerMessage::PlayerLeft { .. } => "player_left",
            ServerMessage::PlayerReconnected { .. } => "player_reconnected",
            ServerMessage::PlayerDisconnected { .. } => "player_disconnected",
            ServerMessage::PlayerReadyChanged { .. } => "player_ready_changed",
            ServerMessage::WordScored { .. } => "word_scored",
            ServerMessage::TurnChanged { .. } => "turn_changed",
            ServerMessage::TurnPassed { .. } => "turn_passed",
            ServerMessage::RoundChanged { .. } => "round_changed",
            ServerMessage::BoardShuffled { .. } => "board_shuffled",
            ServerMessage::TileSwapped { .. } => "tile_swapped",
            ServerMessage::SwapModeEntered { .. } => "swap_mode_entered",
            ServerMessage::SwapModeExited { .. } => "swap_mode_exited",
            ServerMessage::SpectatorJoined { .. } => "spectator_joined",
            ServerMessage::SpectatorAdded { .. } => "spectator_added",
            ServerMessage::SpectatorRemoved { .. } => "spectator_removed",
            ServerMessage::SpectatorBecamePlayer { .. } => "spectator_became_player",
            ServerMessage::SelectionUpdate { .. } => "selection_update",
            ServerMessage::TimerVoteUpdate { .. } => "timer_vote_update",
            ServerMessage::TurnTimerStarted { .. } => "turn_timer_started",
            ServerMessage::TurnTimerExpired { .. } => "turn_timer_expired",
            ServerMessage::QueueJoined { .. } => "queue_joined",
            ServerMessage::QueueUpdate { .. } => "queue_update",
            ServerMessage::QueueLeft => "queue_left",
            ServerMessage::AdminGamesList { .. } => "admin_games_list",
            ServerMessage::AdminGameDeleted { .. } => "admin_game_deleted",
            ServerMessage::GameStateUpdate { .. } => "game_state",
            ServerMessage::LobbyStateUpdate { .. } => "lobby_state",
            ServerMessage::Error { .. } => "error",
        }
    }

    /// Whether this is an error response.
    pub fn is_error(&self) -> (r: bool)
        ensures
            r == (self is Error),
    {
        matches!(self, ServerMessage::Error { .. })
    }

    /// Whether a resuming client must be sent this message again. Excluded
    /// are the messages whose absence cannot change what a client believes
    /// about durable state: the handshake greeting, heartbeat
    /// acknowledgments, live selection updates, and a timer-vote update that
    /// reports the vote at rest. Everything else is kept.
    pub open spec fn spec_replayable(self) -> bool {
        match self {
            ServerMessage::Hello { .. } => false,
            ServerMessage::HeartbeatAck { .. } => false,
            ServerMessage::SelectionUpdate { .. } => false,
            ServerMessage::TimerVoteUpdate { state } => !(state is Idle),
            _ => true,
        }
    }

    /// Whether a resuming client must be sent this message again (see
    /// [`ServerMessage::spec_replayable`]).
    pub fn should_store_for_replay(&self) -> (r: bool)
        ensures
            r == self.spec_replayable(),
    {
        !matches!(
            self,
            ServerMessage::Hello { .. } | ServerMessage::HeartbeatAck { .. }
                | ServerMessage::SelectionUpdate { .. } | ServerMessage::TimerVoteUpdate {
                state: TimerVoteState::Idle,
            }
        )
    }
}

/// Full state of a lobby.
#[derive(Debug, Clone)]
pub struct LobbySnapshot {
    pub lobby_id: String,
    pub lobby_type: LobbyType,
    pub lobby_code: Option<String>,
    pub players: Vec<LobbyPlayerInfo>,
    pub games: Vec<LobbyGameInfo>,
    pub host_id: Option<String>,
    pub max_players: u8,
}

/// Value a missing `max_players` field takes when a lobby is decoded.
pub fn default_max_players() -> (r: u8)
    ensures
        r == 6,
{
    6
}

/// Full state of a game, as sent to clients.
#[derive(Debug, Clone)]
pub struct GameSnapshot {
    pub game_id: String,
    pub state: GameState,
    pub grid: Grid,
    pub players: Vec<PlayerInfo>,
    pub spectators: Vec<SpectatorInfo>,
    pub current_turn: String,
    pub round: u8,
    pub max_rounds: u8,
    pub used_words: Vec<String>,
    pub timer_vote_state: TimerVoteState,
    pub your_player: Option<PlayerInfo>,
    pub turn_time_remaining: Option<u32>,
}

} // verus!
