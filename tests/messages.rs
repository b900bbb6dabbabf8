use runecast_protocol::protocol::types::{GameState, GameType, LobbyPlayerInfo, TimerVoteState, UtcInstant};
use runecast_protocol::protocol::{
    ClientMessage, ErrorCode, ServerMessage, HEARTBEAT_INTERVAL_MS, HEARTBEAT_TIMEOUT_MS,
    MAX_MESSAGE_SIZE, RECONNECT_GRACE_MS,
};
use runecast_protocol::protocol::server_messages::{default_max_players, GameSnapshot};
use runecast_protocol::protocol::compat::snapshot_to_legacy_game_state;
use runecast_protocol::protocol::json::Json;

#[test]
fn client_messages_test_message_type() {
    assert_eq!(ClientMessage::Heartbeat.message_type(), "heartbeat");
    assert_eq!(ClientMessage::StartGame.message_type(), "start_game");
}

#[test]
fn test_requires_lobby() {
    assert!(!ClientMessage::Heartbeat.requires_lobby());
    assert!(!ClientMessage::CreateCustomLobby.requires_lobby());
    assert!(ClientMessage::StartGame.requires_lobby());
    assert!(ClientMessage::ToggleReady.requires_lobby());
}

#[test]
fn test_requires_turn() {
    assert!(!ClientMessage::Heartbeat.requires_turn());
    assert!(!ClientMessage::InitiateTimerVote { game_id: "game_1".to_string() }.requires_turn());
    assert!(ClientMessage::PassTurn { game_id: "game_1".to_string() }.requires_turn());
    assert!(ClientMessage::SubmitWord {
        game_id: "game_1".to_string(),
        word: "TEST".to_string(),
        positions: vec![]
    }
    .requires_turn());
}

#[test]
fn requires_active_game_covers_in_game_actions_only() {
    assert!(ClientMessage::SelectionUpdate { game_id: "g".to_string(), positions: vec![] }
        .requires_active_game());
    assert!(ClientMessage::VoteForTimer { game_id: "g".to_string() }.requires_active_game());
    assert!(!ClientMessage::StartGame.requires_active_game());
    assert!(!ClientMessage::LeaveGame { game_id: "g".to_string() }.requires_active_game());
    assert!(!ClientMessage::Identify { resume_seq: Some(3) }.requires_lobby());
}

#[test]
fn client_message_type_renamed_variants() {
    assert_eq!(ClientMessage::SpectateGame { game_id: "g".to_string() }.message_type(), "join_game");
    assert_eq!(ClientMessage::Identify { resume_seq: None }.message_type(), "identify");
    assert_eq!(
        ClientMessage::PlayerDisconnected { lobby_id: None, game_id: None }.message_type(),
        "player_disconnected"
    );
}

#[test]
fn test_constants() {
    assert_eq!(HEARTBEAT_INTERVAL_MS, 30_000);
    assert!(HEARTBEAT_TIMEOUT_MS > HEARTBEAT_INTERVAL_MS);
    assert!(RECONNECT_GRACE_MS > HEARTBEAT_TIMEOUT_MS);
}

#[test]
fn protocol_constants_values() {
    assert_eq!(HEARTBEAT_TIMEOUT_MS, 45_000);
    assert_eq!(RECONNECT_GRACE_MS, 60_000);
    assert_eq!(MAX_MESSAGE_SIZE, 65536);
    assert_eq!(default_max_players(), 6);
}

#[test]
fn test_error_code_message() {
    assert_eq!(ErrorCode::NotYourTurn.message(), "It's not your turn");
    assert_eq!(ErrorCode::WordNotInDictionary.message(), "Word not found in dictionary");
}

#[test]
fn test_error_message_creation() {
    let msg = ServerMessage::error(ErrorCode::NotYourTurn);
    match msg {
        ServerMessage::Error { code, message, .. } => {
            assert_eq!(code, ErrorCode::NotYourTurn);
            assert_eq!(message, "It's not your turn");
        }
        _ => panic!("Expected error message"),
    }
}

#[test]
fn error_with_message_and_details() {
    let msg = ServerMessage::error_with_message(ErrorCode::InvalidPath, "Tiles must be adjacent");
    assert!(msg.is_error());
    match msg {
        ServerMessage::Error { code, message, details } => {
            assert_eq!(code, ErrorCode::InvalidPath);
            assert_eq!(message, "Tiles must be adjacent");
            assert!(details.is_none());
        }
        _ => panic!("Expected error message"),
    }
    let msg = ServerMessage::error_with_details(ErrorCode::InvalidPath, "x", Json::Null);
    match msg {
        ServerMessage::Error { details, .. } => assert!(matches!(details, Some(Json::Null))),
        _ => panic!("Expected error message"),
    }
}

fn lobby_player(id: i64, name: &str) -> LobbyPlayerInfo {
    LobbyPlayerInfo {
        user_id: id,
        username: name.to_string(),
        avatar_url: None,
        is_ready: false,
        current_queue: None,
    }
}

#[test]
fn test_should_store_for_replay() {
    assert!(!ServerMessage::HeartbeatAck { server_time: 0 }.should_store_for_replay());
    assert!(ServerMessage::PlayerJoined { player: lobby_player(1, "x") }.should_store_for_replay());
}

#[test]
fn replay_rule_excludes_transient_messages() {
    assert!(!ServerMessage::Hello { heartbeat_interval_ms: 30_000, server_version: None }
        .should_store_for_replay());
    assert!(!ServerMessage::SelectionUpdate {
        player_id: "p".to_string(),
        game_id: "g".to_string(),
        positions: vec![]
    }
    .should_store_for_replay());
    assert!(!ServerMessage::TimerVoteUpdate { state: TimerVoteState::Idle }.should_store_for_replay());
    assert!(ServerMessage::TimerVoteUpdate {
        state: TimerVoteState::Cooldown { expires_at: UtcInstant { secs: 10, nanos: 0 } }
    }
    .should_store_for_replay());
    assert!(ServerMessage::error(ErrorCode::LobbyFull).should_store_for_replay());
    assert!(ServerMessage::LobbyLeft.should_store_for_replay());
}

#[test]
fn server_messages_test_message_type() {
    assert_eq!(ServerMessage::HeartbeatAck { server_time: 0 }.message_type(), "heartbeat_ack");
    assert_eq!(ServerMessage::error(ErrorCode::NotYourTurn).message_type(), "error");
}

#[test]
fn server_message_type_legacy_names() {
    assert_eq!(ServerMessage::QueueLeft.message_type(), "queue_left");
    assert_eq!(
        ServerMessage::LobbyStateUpdate { lobby_id: "l".to_string(), players: vec![], games: vec![] }
            .message_type(),
        "lobby_state"
    );
}

#[test]
fn game_type_names() {
    assert_eq!(GameType::Open.as_str(), "open");
    assert_eq!(GameType::TwoVTwo.as_str(), "two_v_two");
    assert_eq!(GameType::Adventure.as_str(), "adventure");
}

#[test]
fn legacy_state_names_round_trip() {
    for s in [
        GameState::Idle,
        GameState::Queueing,
        GameState::Starting,
        GameState::InProgress,
        GameState::Finished,
        GameState::Cancelled,
    ] {
        assert_eq!(GameState::from_legacy_name(s.legacy_name()), s);
    }
    assert_eq!(GameState::InProgress.legacy_name(), "in_progress");
    assert_eq!(GameState::from_legacy_name("bogus"), GameState::Idle);
}

#[test]
fn snapshot_becomes_legacy_game_state() {
    let snapshot = GameSnapshot {
        game_id: "game1".to_string(),
        state: GameState::InProgress,
        grid: vec![],
        players: vec![],
        spectators: vec![],
        current_turn: "1".to_string(),
        round: 2,
        max_rounds: 5,
        used_words: vec!["WORD".to_string()],
        timer_vote_state: TimerVoteState::default(),
        your_player: None,
        turn_time_remaining: Some(10),
    };
    match snapshot_to_legacy_game_state(snapshot) {
        ServerMessage::GameStateUpdate { game_id, state, round, max_rounds, used_words, .. } => {
            assert_eq!(game_id, "game1");
            assert_eq!(state, "in_progress");
            assert_eq!(round, 2);
            assert_eq!(max_rounds, 5);
            assert_eq!(used_words, vec!["WORD".to_string()]);
        }
        _ => panic!("Expected legacy game state"),
    }
}

#[test]
fn utc_instant_checks_nanos() {
    assert_eq!(UtcInstant::new(10, 999_999_999), Some(UtcInstant { secs: 10, nanos: 999_999_999 }));
    assert_eq!(UtcInstant::new(-3, 1_999_999_999).map(|i| i.nanos), Some(1_999_999_999));
    assert_eq!(UtcInstant::new(10, 2_000_000_000), None);
}
