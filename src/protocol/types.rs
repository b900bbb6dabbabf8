//! Shared data types carried inside protocol messages.
//!
//! These are plain data: the wire encoding of each of them (field names,
//! `snake_case` tags, ids written as decimal strings) is applied where the
//! messages are serialized, outside the verified library.

use vstd::prelude::*;
use vstd::string::StrSliceExecFns;

verus! {

/// A cell coordinate on the letter grid.
#[derive(Debug, Clone, Copy, PartialEq, Eq, Hash, Structural)]
pub struct Position {
    pub row: usize,
    pub col: usize,
}

/// Score multiplier printed on a grid cell.
#[derive(Debug, Clone, Copy, PartialEq, Eq, Structural)]
pub enum Multiplier {
    DoubleLetter,
    TripleLetter,
    DoubleWord,
}

/// One cell of the letter grid.
#[derive(Debug, Clone, Copy, PartialEq, Eq, Structural)]
pub struct GridCell {
    pub letter: char,
    pub value: u8,
    pub multiplier: Option<Multiplier>,
    pub has_gem: bool,
}

/// The letter grid, row by row.
pub type Grid = Vec<Vec<GridCell>>;

/// Game mode chosen when a game is created.
#[derive(Debug, Clone, Copy, PartialEq, Eq, Structural)]
pub enum GameMode {
    Solo,
    Multiplayer,
    Adventure,
}

impl Default for GameMode {
    fn default() -> (r: GameMode)
        ensures
            r == GameMode::Multiplayer,
    {
        GameMode::Multiplayer
    }
}

/// Kind of lobby a player sits in.
#[derive(Debug, Clone, Copy, PartialEq, Eq, Structural)]
pub enum LobbyType {
    Channel,
    Custom,
}

/// Queue a lobby player can wait in.
#[derive(Debug, Clone, Copy, PartialEq, Eq, Hash, Structural)]
pub enum GameType {
    Open,
    TwoVTwo,
    Adventure,
}

impl GameType {
    /// The name of this game type on the wire.
    pub open spec fn spec_name(self) -> Seq<char> {
        match self {
            GameType::Open => "open"@,
            GameType::TwoVTwo => "two_v_two"@,
            GameType::Adventure => "adventure"@,
        }
    }

    /// The name of this game type on the wire (`"open"`, `"two_v_two"`,
    /// `"adventure"`).
    pub fn as_str(&self) -> (r: &'static str)
        ensures
            r@ == self.spec_name(),
    {
        match self {
            GameType::Open => "open",
            GameType::TwoVTwo => "two_v_two",
            GameType::Adventure => "adventure",
        }
    }
}

/// A player as listed in a lobby.
#[derive(Debug, Clone)]
pub struct LobbyPlayerInfo {
    pub user_id: i64,
    pub username: String,
    pub avatar_url: Option<String>,
    pub is_ready: bool,
    pub current_queue: Option<GameType>,
}

/// Short description of a game, for listings.
#[derive(Debug, Clone)]
pub struct GameSummary {
    pub game_id: String,
    pub state: GameState,
    pub current_round: u8,
    pub max_rounds: u8,
    pub player_count: u8,
    pub spectator_count: u8,
}

/// Whether two strings hold the same characters.
pub fn same_text(a: &str, b: &str) -> (r: bool)
    ensures
        r == (a@ == b@),
{
    let n = a.unicode_len();
    if n != b.unicode_len() {
        return false;
    }
    let mut i: usize = 0;
    while i < n
        invariant
            n == a@.len() == b@.len(),
            i <= n,
            forall|j: int| 0 <= j < i ==> a@[j] == b@[j],
        decreases n - i,
    {
        if a.get_char(i) != b.get_char(i) {
            return false;
        }
        i = i + 1;
    }
    assert(a@ =~= b@);
    true
}

/// Lifecycle state of a game.
#[derive(Debug, Clone, Copy, PartialEq, Eq, Structural)]
pub enum GameState {
    Idle,
    Queueing,
    Starting,
    InProgress,
    Finished,
    Cancelled,
}

impl GameState {
    /// The name of this state in the legacy flat `game_state` message.
    pub open spec fn spec_legacy_name(self) -> Seq<char> {
        match self {
            GameState::Idle => "idle"@,
            GameState::Queueing => "queueing"@,
            GameState::Starting => "starting"@,
            GameState::InProgress => "in_progress"@,
            GameState::Finished => "finished"@,
            GameState::Cancelled => "cancelled"@,
        }
    }

    /// The name of this state in the legacy flat `game_state` message.
    pub fn legacy_name(&self) -> (r: &'static str)
        ensures
            r@ == self.spec_legacy_name(),
    {
        match self {
            GameState::Idle => "idle",
            GameState::Queueing => "queueing",
            GameState::Starting => "starting",
            GameState::InProgress => "in_progress",
            GameState::Finished => "finished",
            GameState::Cancelled => "cancelled",
        }
    }

    /// The state a legacy name stands for; an unknown name reads as idle.
    pub open spec fn spec_from_legacy_name(name: Seq<char>) -> GameState {
        if name == "idle"@ {
            GameState::Idle
        } else if name == "queueing"@ {
            GameState::Queueing
        } else if name == "starting"@ {
            GameState::Starting
        } else if name == "in_progress"@ {
            GameState::InProgress
        } else if name == "finished"@ {
            GameState::Finished
        } else if name == "cancelled"@ {
            GameState::Cancelled
        } else {
            GameState::Idle
        }
    }

    /// The state a legacy name stands for; an unknown name reads as idle.
    pub fn from_legacy_name(name: &str) -> (r: GameState)
        ensures
            r == GameState::spec_from_legacy_name(name@),
    {
        if same_text(name, "idle") {
            GameState::Idle
        } else if same_text(name, "queueing") {
            GameState::Queueing
        } else if same_text(name, "starting") {
            GameState::Starting
        } else if same_text(name, "in_progress") {
            GameState::InProgress
        } else if same_text(name, "finished") {
            GameState::Finished
        } else if same_text(name, "cancelled") {
            GameState::Cancelled
        } else {
            GameState::Idle
        }
    }
}

/// Reading back the legacy name of a state gives that state.
pub proof fn lemma_legacy_name_round_trip(s: GameState)
    ensures
        GameState::spec_from_legacy_name(s.spec_legacy_name()) == s,
{
    reveal_strlit("idle");
    reveal_strlit("queueing");
    reveal_strlit("starting");
    reveal_strlit("in_progress");
    reveal_strlit("finished");
    reveal_strlit("cancelled");
    assert("queueing"@[0] != "starting"@[0]);
    assert("queueing"@[0] != "finished"@[0]);
    assert("starting"@[0] != "finished"@[0]);
    assert("idle"@.len() != "queueing"@.len());
    assert("idle"@.len() != "in_progress"@.len());
    assert("idle"@.len() != "cancelled"@.len());
    assert("queueing"@.len() != "in_progress"@.len());
    assert("queueing"@.len() != "cancelled"@.len());
    assert("in_progress"@.len() != "cancelled"@.len());
    assert("starting"@.len() != "in_progress"@.len());
    assert("finished"@.len() != "in_progress"@.len());
    assert("starting"@.len() != "cancelled"@.len());
    assert("finished"@.len() != "cancelled"@.len());
    assert("idle"@.len() != "starting"@.len());
    assert("idle"@.len() != "finished"@.len());
}

/// A player inside a game.
#[derive(Debug, Clone)]
pub struct PlayerInfo {
    pub user_id: i64,
    pub username: String,
    pub avatar_url: Option<String>,
    pub score: i32,
    pub gems: i32,
    pub team: Option<i32>,
    pub is_connected: bool,
}

/// Value a missing `is_connected` field takes when a player is decoded.
pub fn default_true() -> (r: bool)
    ensures
        r,
{
    true
}

/// A player as announced when a game starts.
#[derive(Debug, Clone)]
pub struct GamePlayerInfo {
    pub user_id: i64,
    pub username: String,
    pub avatar_url: Option<String>,
    pub turn_order: u8,
    pub score: i32,
    pub gems: i32,
    pub is_connected: bool,
    pub team: Option<i32>,
}

/// A spectator of a game.
#[derive(Debug, Clone)]
pub struct SpectatorInfo {
    pub user_id: i64,
    pub username: String,
    pub avatar_url: Option<String>,
}

/// Final score line of one player.
#[derive(Debug, Clone)]
pub struct ScoreInfo {
    pub user_id: i64,
    pub username: String,
    pub score: i32,
}

/// A player of a game as shown in the lobby.
#[derive(Debug, Clone)]
pub struct LobbyGamePlayerInfo {
    pub user_id: i64,
    pub username: String,
    pub score: i32,
}

/// A game as shown in the lobby.
#[derive(Debug, Clone)]
pub struct LobbyGameInfo {
    pub game_id: String,
    pub current_round: i32,
    pub max_rounds: i32,
    pub players: Vec<LobbyGamePlayerInfo>,
}

/// A point in time, as a count of seconds and nanoseconds since the Unix
/// epoch (UTC). The nanosecond part stays below one second except during a
/// leap second, as with the calendar type it is exchanged with.
#[derive(Debug, Clone, Copy, PartialEq, Eq, Structural)]
pub struct UtcInstant {
    pub secs: i64,
    pub nanos: u32,
}

impl UtcInstant {
    /// The nanosecond part stays below two seconds' worth (one second plus a
    /// leap second).
    pub open spec fn wf(self) -> bool {
        self.nanos < 2_000_000_000
    }

    /// The instant `secs` seconds and `nanos` nanoseconds after the epoch,
    /// when `nanos` is in range.
    pub fn new(secs: i64, nanos: u32) -> (r: Option<UtcInstant>)
        ensures
            r is Some <==> nanos < 2_000_000_000,
            r matches Some(i) ==> i.wf() && i.secs == secs && i.nanos == nanos,
    {
        if nanos < 2_000_000_000 {
            Some(UtcInstant { secs, nanos })
        } else {
            None
        }
    }
}

/// Full state of a game, keyed by the numeric id of the player to move.
#[derive(Debug, Clone)]
pub struct GameSnapshot {
    pub game_id: String,
    pub state: GameState,
    pub grid: Grid,
    pub players: Vec<PlayerInfo>,
    pub spectators: Vec<SpectatorInfo>,
    pub current_turn: i64,
    pub round: u8,
    pub max_rounds: u8,
    pub used_words: Vec<String>,
    pub timer_vote_state: TimerVoteState,
    pub your_player: Option<PlayerInfo>,
    pub timer_expiration_time: Option<UtcInstant>,
}

/// State of the vote to start a turn timer.
#[derive(Debug, Clone)]
pub enum TimerVoteState {
    Idle,
    VoteInProgress {
        initiator_id: i64,
        voters: Vec<i64>,
        votes_needed: u32,
        expires_at: UtcInstant,
    },
    TimerActive { expires_at: UtcInstant, target_player_id: i64 },
    Cooldown { expires_at: UtcInstant },
    Disabled,
}

impl Default for TimerVoteState {
    fn default() -> (r: TimerVoteState)
        ensures
            r is Idle,
    {
        TimerVoteState::Idle
    }
}

/// One change to a lobby.
#[derive(Debug, Clone)]
pub enum LobbyChange {
    PlayerJoined { player: LobbyPlayerInfo },
    PlayerLeft { player_id: i64, reason: Option<String> },
    PlayerReadyChanged { player_id: i64, is_ready: bool },
    PlayerConnectionChanged { player_id: i64, is_connected: bool },
    GameStateChanged { game_id: String, state: GameState },
    QueueUpdated { game_id: String, queue_count: u32 },
    HostChanged { new_host_id: String },
}

/// One change to a game.
#[derive(Debug, Clone)]
pub enum GameChange {
    GridUpdated { grid: Grid, replaced_positions: Option<Vec<Position>> },
    ScoreUpdated { player_id: i64, score: i32, gems: i32 },
    TurnChanged { player_id: i64 },
    RoundChanged { round: u8 },
    WordUsed { word: String },
    SpectatorJoined { spectator: SpectatorInfo },
    SpectatorLeft { spectator_id: i64 },
    PlayerConnectionChanged { player_id: i64, is_connected: bool },
}

/// A game as listed to administrators.
#[derive(Debug, Clone)]
pub struct AdminGameInfo {
    pub game_id: String,
    pub state: GameState,
    pub created_at: UtcInstant,
    pub players: Vec<i64>,
}

/// Machine-readable reason carried by an error message.
#[derive(Debug, Clone, Copy, PartialEq, Eq, Structural)]
pub enum ErrorCode {
    NotAuthenticated,
    SessionExpired,
    InvalidSession,
    LobbyNotFound,
    LobbyFull,
    NotInLobby,
    AlreadyInLobby,
    GameNotFound,
    GameInProgress,
    GameNotActive,
    NotInGame,
    AlreadyInGame,
    NotYourTurn,
    InvalidAction,
    ActionTimeout,
    InvalidPath,
    PathTooShort,
    WordNotInDictionary,
    WordAlreadyUsed,
    NotHost,
    NotEnoughPlayers,
    TooManyPlayers,
    InsufficientGems,
    TooManyRequests,
    MessageTooLarge,
    InvalidRequest,
    InternalError,
}

impl ErrorCode {
    /// The human-readable text shown for this code.
    pub open spec fn spec_message(self) -> Seq<char> {
        match self {
            ErrorCode::NotAuthenticated => "Not authenticated"@,
            ErrorCode::SessionExpired => "Session expired"@,
            ErrorCode::InvalidSession => "Invalid session"@,
            ErrorCode::LobbyNotFound => "Lobby not found"@,
            ErrorCode::LobbyFull => "Lobby is full"@,
            ErrorCode::NotInLobby => "You must be in a lobby"@,
            ErrorCode::AlreadyInLobby => "Already in a lobby"@,
            ErrorCode::GameNotFound => "Game not found"@,
            ErrorCode::GameInProgress => "A game is already in progress"@,
            ErrorCode::GameNotActive => "Game is not active"@,
            ErrorCode::NotInGame => "You are not in this game"@,
            ErrorCode::AlreadyInGame => "You are already in this game"@,
            ErrorCode::NotYourTurn => "It's not your turn"@,
            ErrorCode::InvalidAction => "Invalid action"@,
            ErrorCode::ActionTimeout => "Action timed out"@,
            ErrorCode::InvalidPath => "Invalid path - letters must be adjacent"@,
            ErrorCode::PathTooShort => "Word must be at least 3 letters"@,
            ErrorCode::WordNotInDictionary => "Word not found in dictionary"@,
            ErrorCode::WordAlreadyUsed => "Word has already been used"@,
            ErrorCode::NotHost => "Only the host can do this"@,
            ErrorCode::NotEnoughPlayers => "Not enough players"@,
            ErrorCode::TooManyPlayers => "Too many players"@,
            ErrorCode::InsufficientGems => "Not enough gems"@,
            ErrorCode::TooManyRequests => "Too many requests"@,
            ErrorCode::MessageTooLarge => "Message too large"@,
            ErrorCode::InvalidRequest => "Invalid request"@,
            ErrorCode::InternalError => "Internal server error"@,
        }
    }

    /// The human-readable text shown for this code.
    pub fn message(&self) -> (r: &'static str)
        ensures
            r@ == self.spec_message(),
    {
        match self {
            ErrorCode::NotAuthenticated => "Not authenticated",
            ErrorCode::SessionExpired => "Session expired",
            ErrorCode::InvalidSession => "Invalid session",
            ErrorCode::LobbyNotFound => "Lobby not found",
            ErrorCode::LobbyFull => "Lobby is full",
            ErrorCode::NotInLobby => "You must be in a lobby",
            ErrorCode::AlreadyInLobby => "Already in a lobby",
            ErrorCode::GameNotFound => "Game not found",
            ErrorCode::GameInProgress => "A game is already in progress",
            ErrorCode::GameNotActive => "Game is not active",
            ErrorCode::NotInGame => "You are not in this game",
            ErrorCode::AlreadyInGame => "You are already in this game",
            ErrorCode::NotYourTurn => "It's not your turn",
            ErrorCode::InvalidAction => "Invalid action",
            ErrorCode::ActionTimeout => "Action timed out",
            ErrorCode::InvalidPath => "Invalid path - letters must be adjacent",
            ErrorCode::PathTooShort => "Word must be at least 3 letters",
            ErrorCode::WordNotInDictionary => "Word not found in dictionary",
            ErrorCode::WordAlreadyUsed => "Word has already been used",
            ErrorCode::NotHost => "Only the host can do this",
            ErrorCode::NotEnoughPlayers => "Not enough players",
            ErrorCode::TooManyPlayers => "Too many players",
            ErrorCode::InsufficientGems => "Not enough gems",
            ErrorCode::TooManyRequests => "Too many requests",
            ErrorCode::MessageTooLarge => "Message too large",
            ErrorCode::InvalidRequest => "Invalid request",
            ErrorCode::InternalError => "Internal server error",
        }
    }
}

} // verus!
