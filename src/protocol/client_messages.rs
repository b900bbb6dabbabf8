//! Client-to-server messages.

use super::types::{GameMode, Position};
use vstd::prelude::*;

verus! {

/// Messages sent from client to server.
#[derive(Debug, Clone)]
pub enum ClientMessage {
    /// Identification after connecting; `resume_seq` asks to resume a previous session from that sequence number.
    Identify { resume_seq: Option<u64> },
    /// Keep-alive ping.
    Heartbeat,
    /// Explicit acknowledgment of every server message up to `seq`.
    Ack { seq: u64 },
    /// Join the lobby of a channel.
    JoinChannelLobby { channel_id: String, guild_id: Option<String> },
    /// Create a custom lobby.
    CreateCustomLobby,
    /// Join a custom lobby by code.
    JoinCustomLobby { lobby_code: String },
    /// Leave the current lobby.
    LeaveLobby,
    /// Toggle the ready flag.
    ToggleReady,
    /// Create a game in the lobby.
    CreateGame { mode: GameMode },
    /// Start the lobby's game.
    StartGame,
    /// Submit a word traced on the grid.
    SubmitWord { game_id: String, word: String, positions: Vec<Position> },
    /// Pass the turn.
    PassTurn { game_id: String },
    /// Shuffle the board, for gems.
    ShuffleBoard { game_id: String },
    /// Enter tile swap mode.
    EnterSwapMode { game_id: String },
    /// Leave tile swap mode.
    ExitSwapMode { game_id: String },
    /// Swap one tile's letter.
    SwapTile { game_id: String, row: usize, col: usize, new_letter: char },
    /// Watch a game.
    SpectateGame { game_id: String },
    /// Join a watched game as a player.
    JoinGameAsPlayer { game_id: String },
    /// Stop watching a game.
    LeaveSpectator { game_id: String },
    /// Leave a game.
    LeaveGame { game_id: String },
    /// Live view of the tiles being selected.
    SelectionUpdate { game_id: String, positions: Vec<Position> },
    /// Start a vote for a turn timer.
    InitiateTimerVote { game_id: String },
    /// Vote for the turn timer.
    VoteForTimer { game_id: String },
    /// List games (administrators).
    AdminGetGames,
    /// Delete a game (administrators).
    AdminDeleteGame { game_id: String },
    /// Disconnect notification synthesized by the transport.
    PlayerDisconnected { lobby_id: Option<String>, game_id: Option<String> },
}

impl ClientMessage {
    /// The message's `type` tag on the wire.
    pub open spec fn spec_message_type(self) -> Seq<char> {
        match self {
            ClientMessage::Identify { .. } => "identify"@,
            ClientMessage::Heartbeat => "heartbeat"@,
            ClientMessage::Ack { .. } => "ack"@,
            ClientMessage::JoinChannelLobby { .. } => "join_channel_lobby"@,
            ClientMessage::CreateCustomLobby => "create_custom_lobby"@,
            ClientMessage::JoinCustomLobby { .. } => "join_custom_lobby"@,
            ClientMessage::LeaveLobby => "leave_lobby"@,
            ClientMessage::ToggleReady => "toggle_ready"@,
            ClientMessage::CreateGame { .. } => "create_game"@,
            ClientMessage::StartGame => "start_game"@,
            ClientMessage::SubmitWord { .. } => "submit_word"@,
            ClientMessage::PassTurn { .. } => "pass_turn"@,
            ClientMessage::ShuffleBoard { .. } => "shuffle_board"@,
            ClientMessage::EnterSwapMode { .. } => "enter_swap_mode"@,
            ClientMessage::ExitSwapMode { .. } => "exit_swap_mode"@,
            ClientMessage::SwapTile { .. } => "swap_tile"@,
            ClientMessage::SpectateGame { .. } => "join_game"@,
            ClientMessage::JoinGameAsPlayer { .. } => "join_game_as_player"@,
            ClientMessage::LeaveSpectator { .. } => "leave_spectator"@,
            ClientMessage::LeaveGame { .. } => "leave_game"@,
            ClientMessage::SelectionUpdate { .. } => "selection_update"@,
            ClientMessage::InitiateTimerVote { .. } => "initiate_timer_vote"@,
            ClientMessage::VoteForTimer { .. } => "vote_for_timer"@,
            ClientMessage::AdminGetGames => "admin_get_games"@,
            ClientMessage::AdminDeleteGame { .. } => "admin_delete_game"@,
            ClientMessage::PlayerDisconnected { .. } => "player_disconnected"@,
        }
    }

    /// The message's `type` tag on the wire.
    pub fn message_type(&self) -> (r: &'static str)
        ensures
            r@ == self.spec_message_type(),
    {
        match self {
            ClientMessage::Identify { .. } => "identify",
            ClientMessage::Heartbeat => "heartbeat",
            ClientMessage::Ack { .. } => "ack",
            ClientMessage::JoinChannelLobby { .. } => "join_channel_lobby",
            ClientMessage::CreateCustomLobby => "create_custom_lobby",
            ClientMessage::JoinCustomLobby { .. } => "join_custom_lobby",
            ClientMessage::LeaveLobby => "leave_lobby",
            ClientMessage::ToggleReady => "toggle_ready",
            ClientMessage::CreateGame { .. } => "create_game",
            ClientMessage::StartGame => "start_game",
            ClientMessage::SubmitWord { .. } => "submit_word",
            ClientMessage::PassTurn { .. } => "pass_turn",
            ClientMessage::ShuffleBoard { .. } => "shuffle_board",
            ClientMessage::EnterSwapMode { .. } => "enter_swap_mode",
            ClientMessage::ExitSwapMode { .. } => "exit_swap_mode",
            ClientMessage::SwapTile { .. } => "swap_tile",
            ClientMessage::SpectateGame { .. } => "join_game",
            ClientMessage::JoinGameAsPlayer { .. } => "join_game_as_player",
            ClientMessage::LeaveSpectator { .. } => "leave_spectator",
            ClientMessage::LeaveGame { .. } => "leave_game",
            ClientMessage::SelectionUpdate { .. } => "selection_update",
            ClientMessage::InitiateTimerVote { .. } => "initiate_timer_vote",
            ClientMessage::VoteForTimer { .. } => "vote_for_timer",
            ClientMessage::AdminGetGames => "admin_get_games",
            ClientMessage::AdminDeleteGame { .. } => "admin_delete_game",
            ClientMessage::PlayerDisconnected { .. } => "player_disconnected",
        }
    }

    /// Messages that only make sense from a player in a lobby.
    pub open spec fn spec_requires_lobby(self) -> bool {
        match self {
            ClientMessage::LeaveLobby => true,
            ClientMessage::ToggleReady => true,
            ClientMessage::StartGame => true,
            ClientMessage::SubmitWord { .. } => true,
            ClientMessage::PassTurn { .. } => true,
            ClientMessage::ShuffleBoard { .. } => true,
            ClientMessage::EnterSwapMode { .. } => true,
            ClientMessage::ExitSwapMode { .. } => true,
            ClientMessage::SwapTile { .. } => true,
            ClientMessage::SpectateGame { .. } => true,
            ClientMessage::JoinGameAsPlayer { .. } => true,
            ClientMessage::LeaveSpectator { .. } => true,
            ClientMessage::SelectionUpdate { .. } => true,
            ClientMessage::InitiateTimerVote { .. } => true,
            ClientMessage::VoteForTimer { .. } => true,
            ClientMessage::AdminGetGames => true,
            ClientMessage::AdminDeleteGame { .. } => true,
            _ => false,
        }
    }

    /// Whether the sender must be in a lobby.
    pub fn requires_lobby(&self) -> (r: bool)
        ensures
            r == self.spec_requires_lobby(),
    {
        matches!(
            self,
            ClientMessage::LeaveLobby
                | ClientMessage::ToggleReady
                | ClientMessage::StartGame
                | ClientMessage::SubmitWord { .. }
                | ClientMessage::PassTurn { .. }
                | ClientMessage::ShuffleBoard { .. }
                | ClientMessage::EnterSwapMode { .. }
                | ClientMessage::ExitSwapMode { .. }
                | ClientMessage::SwapTile { .. }
                | ClientMessage::SpectateGame { .. }
                | ClientMessage::JoinGameAsPlayer { .. }
                | ClientMessage::LeaveSpectator { .. }
                | ClientMessage::SelectionUpdate { .. }
                | ClientMessage::InitiateTimerVote { .. }
                | ClientMessage::VoteForTimer { .. }
                | ClientMessage::AdminGetGames
                | ClientMessage::AdminDeleteGame { .. }
        )
    }

    /// Messages that only make sense during a running game.
    pub open spec fn spec_requires_active_game(self) -> bool {
        match self {
            ClientMessage::SubmitWord { .. } => true,
            ClientMessage::PassTurn { .. } => true,
            ClientMessage::ShuffleBoard { .. } => true,
            ClientMessage::EnterSwapMode { .. } => true,
            ClientMessage::ExitSwapMode { .. } => true,
            ClientMessage::SwapTile { .. } => true,
            ClientMessage::SelectionUpdate { .. } => true,
            ClientMessage::InitiateTimerVote { .. } => true,
            ClientMessage::VoteForTimer { .. } => true,
            _ => false,
        }
    }

    /// Whether the sender must be in a running game.
    pub fn requires_active_game(&self) -> (r: bool)
        ensures
            r == self.spec_requires_active_game(),
    {
        matches!(
            self,
            ClientMessage::SubmitWord { .. }
                | ClientMessage::PassTurn { .. }
                | ClientMessage::ShuffleBoard { .. }
                | ClientMessage::EnterSwapMode { .. }
                | ClientMessage::ExitSwapMode { .. }
                | ClientMessage::SwapTile { .. }
                | ClientMessage::SelectionUpdate { .. }
                | ClientMessage::InitiateTimerVote { .. }
                | ClientMessage::VoteForTimer { .. }
        )
    }

    /// Messages that only the player to move may send.
    pub open spec fn spec_requires_turn(self) -> bool {
        match self {
            ClientMessage::SubmitWord { .. } => true,
            ClientMessage::PassTurn { .. } => true,
            ClientMessage::ShuffleBoard { .. } => true,
            ClientMessage::SwapTile { .. } => true,
            _ => false,
        }
    }

    /// Whether the sender must be the player to move.
    pub fn requires_turn(&self) -> (r: bool)
        ensures
            r == self.spec_requires_turn(),
    {
        matches!(
            self,
            ClientMessage::SubmitWord { .. }
                | ClientMessage::PassTurn { .. }
                | ClientMessage::ShuffleBoard { .. }
                | ClientMessage::SwapTile { .. }
        )
    }

}

} // verus!
