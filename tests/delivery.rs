use runecast_protocol::protocol::envelope::millis_or_zero;
use runecast_protocol::protocol::compat::{
    decode_document, encode_envelope, frame_outbound, frame_outbound_at, read_inbound,
};
use runecast_protocol::protocol::json::{Json, JsonNumber};
use runecast_protocol::protocol::resume::{InboundOrder, ResumeState, SequenceError};
use runecast_protocol::protocol::sessions::{Identified, SessionRegistry, Unresumable};
use runecast_protocol::protocol::types::LobbyPlayerInfo;
use runecast_protocol::protocol::{Envelope, MaybeEnveloped, ServerMessage, RECONNECT_GRACE_MS};

#[test]
fn test_envelope_with_ack() {
    let envelope = Envelope::with_ack(42, 41, "test");
    assert_eq!(envelope.seq, 42);
    assert_eq!(envelope.ack, Some(41));
}

#[test]
fn test_maybe_enveloped_raw() {
    let raw: MaybeEnveloped<String> = MaybeEnveloped::Raw("hello".to_string());
    assert!(!raw.is_enveloped());
    assert_eq!(raw.seq(), None);
    assert_eq!(raw.into_payload(), "hello");
}

#[test]
fn test_maybe_enveloped_envelope() {
    let env = MaybeEnveloped::Enveloped(Envelope::new(1, "hello".to_string()));
    assert!(env.is_enveloped());
    assert_eq!(env.seq(), Some(1));
}

#[test]
fn envelope_new_has_no_ack_and_map_keeps_metadata() {
    let envelope = Envelope::new(7, 5u32);
    assert_eq!(envelope.ack, None);
    let ts = envelope.timestamp;
    let mapped = envelope.map(|x| x * 2);
    assert_eq!(mapped.seq, 7);
    assert_eq!(mapped.ack, None);
    assert_eq!(mapped.timestamp, ts);
    assert_eq!(mapped.payload, 10);
    let wrapped = MaybeEnveloped::Enveloped(Envelope::with_ack(3, 2, 0u8));
    assert_eq!(wrapped.ack(), Some(2));
}

#[test]
fn envelope_timestamp_reads_the_clock() {
    let envelope = Envelope::new(1, ());
    assert!(envelope.timestamp > 1_600_000_000_000);
}

fn text(s: &str) -> Json {
    Json::Str(s.to_string())
}

fn uint(n: u64) -> Json {
    Json::Number(JsonNumber::Unsigned(n))
}

fn heartbeat() -> Json {
    Json::Object(vec![("type".to_string(), text("heartbeat"))])
}

fn is_heartbeat(doc: &Json) -> bool {
    match doc {
        Json::Object(members) => {
            members.len() == 1
                && members[0].0 == "type"
                && matches!(&members[0].1, Json::Str(s) if s == "heartbeat")
        }
        _ => false,
    }
}

#[test]
fn legacy_heartbeat_reads_as_raw() {
    let (payload, seq, ack) = read_inbound(heartbeat());
    assert!(is_heartbeat(&payload));
    assert!(seq.is_none());
    assert!(ack.is_none());
}

#[test]
fn enveloped_heartbeat_reads_seq_and_ack() {
    let doc = Json::Object(vec![
        ("seq".to_string(), uint(42)),
        ("ack".to_string(), uint(41)),
        ("ts".to_string(), uint(12345)),
        ("payload".to_string(), heartbeat()),
    ]);
    let (payload, seq, ack) = read_inbound(doc);
    assert!(is_heartbeat(&payload));
    assert_eq!(seq, Some(42));
    assert_eq!(ack, Some(41));
}

#[test]
fn enveloped_without_ack_member() {
    let doc = Json::Object(vec![
        ("seq".to_string(), uint(1)),
        ("ts".to_string(), uint(12345)),
        ("payload".to_string(), heartbeat()),
    ]);
    match decode_document(doc) {
        MaybeEnveloped::Enveloped(env) => {
            assert_eq!(env.seq, 1);
            assert_eq!(env.ack, None);
            assert_eq!(env.timestamp, 12345);
            assert!(is_heartbeat(&env.payload));
        }
        MaybeEnveloped::Raw(_) => panic!("expected an envelope"),
    }
}

#[test]
fn null_ack_reads_as_none() {
    let doc = Json::Object(vec![
        ("payload".to_string(), heartbeat()),
        ("ack".to_string(), Json::Null),
        ("ts".to_string(), uint(9)),
        ("seq".to_string(), uint(5)),
    ]);
    let (_, seq, ack) = read_inbound(doc);
    assert_eq!(seq, Some(5));
    assert_eq!(ack, None);
}

#[test]
fn malformed_envelope_fields_fall_back_to_raw() {
    // a negative sequence number
    let doc = Json::Object(vec![
        ("seq".to_string(), Json::Number(JsonNumber::Signed(-1))),
        ("ts".to_string(), uint(9)),
        ("payload".to_string(), heartbeat()),
    ]);
    match decode_document(doc) {
        MaybeEnveloped::Raw(Json::Object(members)) => assert_eq!(members.len(), 3),
        _ => panic!("expected the whole document back"),
    }
    // no timestamp
    let doc = Json::Object(vec![("seq".to_string(), uint(1)), ("payload".to_string(), heartbeat())]);
    let (payload, seq, ack) = read_inbound(doc);
    assert!(matches!(payload, Json::Object(ref m) if m.len() == 2));
    assert_eq!((seq, ack), (None, None));
    // an acknowledgment that is text
    let doc = Json::Object(vec![
        ("seq".to_string(), uint(1)),
        ("ack".to_string(), text("1")),
        ("ts".to_string(), uint(9)),
        ("payload".to_string(), heartbeat()),
    ]);
    assert!(!decode_document(doc).is_enveloped());
    // not an object at all
    assert!(matches!(read_inbound(Json::Bool(true)), (Json::Bool(true), None, None)));
}

#[test]
fn envelope_document_round_trips() {
    for ack in [None, Some(0), Some(41)] {
        let env = Envelope { seq: 42, ack, timestamp: 1701234567890, payload: heartbeat() };
        match decode_document(encode_envelope(env)) {
            MaybeEnveloped::Enveloped(back) => {
                assert_eq!(back.seq, 42);
                assert_eq!(back.ack, ack);
                assert_eq!(back.timestamp, 1701234567890);
                assert!(is_heartbeat(&back.payload));
            }
            MaybeEnveloped::Raw(_) => panic!("expected an envelope"),
        }
    }
}

#[test]
fn envelope_document_layout() {
    let doc = encode_envelope(Envelope { seq: 1, ack: Some(0), timestamp: 12345, payload: Json::Null });
    match doc {
        Json::Object(members) => {
            let names: Vec<&str> = members.iter().map(|m| m.0.as_str()).collect();
            assert_eq!(names, vec!["seq", "ack", "ts", "payload"]);
            assert!(matches!(members[0].1, Json::Number(JsonNumber::Unsigned(1))));
            assert!(matches!(members[1].1, Json::Number(JsonNumber::Unsigned(0))));
            assert!(matches!(members[2].1, Json::Number(JsonNumber::Unsigned(12345))));
        }
        _ => panic!("expected an object"),
    }
}

#[test]
fn egress_without_seq_is_bare_payload() {
    let doc = frame_outbound(heartbeat(), None, Some(3));
    assert!(is_heartbeat(&doc));
    let doc = frame_outbound_at(heartbeat(), None, None, 5);
    assert!(is_heartbeat(&doc));
}

#[test]
fn egress_with_seq_is_enveloped() {
    let (payload, seq, ack) = read_inbound(frame_outbound(heartbeat(), Some(1), Some(0)));
    assert!(is_heartbeat(&payload));
    assert_eq!(seq, Some(1));
    assert_eq!(ack, Some(0));
    match decode_document(frame_outbound_at(heartbeat(), Some(9), None, 77)) {
        MaybeEnveloped::Enveloped(env) => {
            assert_eq!((env.seq, env.ack, env.timestamp), (9, None, 77));
        }
        MaybeEnveloped::Raw(_) => panic!("expected an envelope"),
    }
}

fn joined(id: i64) -> ServerMessage {
    ServerMessage::PlayerJoined {
        player: LobbyPlayerInfo {
            user_id: id,
            username: format!("p{}", id),
            avatar_url: None,
            is_ready: false,
            current_queue: None,
        },
    }
}

fn log_seqs(state: &ResumeState) -> Vec<u64> {
    state.log().iter().map(|e| e.seq).collect()
}

const OWNER: i64 = 42;

fn fresh(registry: &mut SessionRegistry, now: u64) -> (u64, ResumeState) {
    match registry.identify(OWNER, None, None, now) {
        Identified::Fresh { session_id, state, refused } => {
            assert!(refused.is_none());
            (session_id, state)
        }
        _ => panic!("expected a fresh session"),
    }
}

#[test]
fn resume_within_grace_replays_all_unacked() {
    let mut registry = SessionRegistry::new(RECONNECT_GRACE_MS as u64);
    let (id, mut state) = fresh(&mut registry, 0);
    assert_eq!(state.last_sent_seq(), 0);
    let seqs: Vec<u64> = (1..=3).map(|i| state.send(joined(i)).seq).collect();
    assert_eq!(seqs, vec![1, 2, 3]);
    registry.park(id, OWNER, state, 1_000);
    match registry.identify(OWNER, Some(id), Some(0), 2_000) {
        Identified::Resumed { session_id, state, replay } => {
            assert_eq!(session_id, id);
            let replayed: Vec<u64> = replay.iter().map(|e| e.seq).collect();
            assert_eq!(replayed, vec![1, 2, 3]);
            assert!(matches!(&*replay[0].message, ServerMessage::PlayerJoined { player } if player.user_id == 1));
            assert!(matches!(&*replay[2].message, ServerMessage::PlayerJoined { player } if player.user_id == 3));
            assert_eq!(state.last_acked_by_peer(), Some(0));
        }
        _ => panic!("expected a resumption"),
    }
    assert_eq!(registry.len(), 0);
}

#[test]
fn piggyback_ack_trims_before_resume() {
    let mut registry = SessionRegistry::new(RECONNECT_GRACE_MS as u64);
    let (id, mut state) = fresh(&mut registry, 0);
    for i in 1..=3 {
        state.send(joined(i));
    }
    assert_eq!(state.acknowledge(2), Ok(()));
    assert_eq!(log_seqs(&state), vec![3]);
    registry.park(id, OWNER, state, 1_000);
    match registry.identify(OWNER, Some(id), Some(2), 5_000) {
        Identified::Resumed { replay, .. } => {
            let replayed: Vec<u64> = replay.iter().map(|e| e.seq).collect();
            assert_eq!(replayed, vec![3]);
        }
        _ => panic!("expected a resumption"),
    }
}

#[test]
fn resume_after_grace_is_refused() {
    let mut registry = SessionRegistry::new(RECONNECT_GRACE_MS as u64);
    let (id, mut state) = fresh(&mut registry, 0);
    for i in 1..=3 {
        state.send(joined(i));
    }
    registry.park(id, OWNER, state, 1_000);
    match registry.identify(OWNER, Some(id), Some(1), 1_000 + 60_000) {
        Identified::Fresh { session_id, state, refused } => {
            assert_eq!(refused, Some(Unresumable::Expired));
            assert_ne!(session_id, id);
            assert_eq!(state.last_sent_seq(), 0);
        }
        _ => panic!("expected a fresh session"),
    }
    assert_eq!(registry.len(), 0);
    assert!(!registry.is_parked(id));
    // the discarded session is gone for good
    match registry.identify(OWNER, Some(id), Some(1), 61_500) {
        Identified::Fresh { refused, .. } => assert_eq!(refused, Some(Unresumable::UnknownSession)),
        _ => panic!("expected a fresh session"),
    }
}

#[test]
fn heartbeat_ack_never_replayed() {
    let mut state = ResumeState::fresh();
    let first = state.send(ServerMessage::HeartbeatAck { server_time: 1 });
    let second = state.send(joined(9));
    assert_eq!((first.seq, first.retained), (1, false));
    assert_eq!((second.seq, second.retained), (2, true));
    let replay = state.resume_from(0).unwrap();
    assert_eq!(replay.len(), 1);
    assert_eq!(replay[0].seq, 2);
    assert!(matches!(&*replay[0].message, ServerMessage::PlayerJoined { .. }));
}

#[test]
fn acknowledging_twice_trims_once() {
    let mut state = ResumeState::fresh();
    for i in 1..=4 {
        state.send(joined(i));
    }
    assert_eq!(state.acknowledge(2), Ok(()));
    let after_once = log_seqs(&state);
    assert_eq!(state.acknowledge(2), Ok(()));
    assert_eq!(log_seqs(&state), after_once);
    assert_eq!(after_once, vec![3, 4]);
    assert_eq!(state.last_acked_by_peer(), Some(2));
    // an older acknowledgment changes nothing either
    assert_eq!(state.acknowledge(1), Ok(()));
    assert_eq!(log_seqs(&state), vec![3, 4]);
    assert_eq!(state.last_acked_by_peer(), Some(2));
}

#[test]
fn acknowledging_unsent_is_refused() {
    let mut state = ResumeState::fresh();
    state.send(joined(1));
    assert_eq!(state.acknowledge(5), Err(SequenceError::AheadOfSent));
    assert_eq!(log_seqs(&state), vec![1]);
    assert_eq!(state.last_acked_by_peer(), None);
}

#[test]
fn sends_are_consecutive_across_acks() {
    let mut state = ResumeState::fresh();
    let mut seen = Vec::new();
    for i in 0..10 {
        let msg = if i % 3 == 0 { ServerMessage::HeartbeatAck { server_time: i } } else { joined(i as i64) };
        seen.push(state.send(msg).seq);
        if i % 4 == 3 {
            let last = state.last_sent_seq();
            state.acknowledge(last - 1).unwrap();
        }
    }
    assert_eq!(seen, (1..=10).collect::<Vec<u64>>());
}

#[test]
fn resume_from_trimmed_point_needs_snapshot() {
    let mut state = ResumeState::fresh();
    for i in 1..=3 {
        state.send(joined(i));
    }
    state.acknowledge(2).unwrap();
    assert!(matches!(state.resume_from(1), Err(SequenceError::HistoryLost)));
    assert!(matches!(state.resume_from(4), Err(SequenceError::AheadOfSent)));
    assert_eq!(log_seqs(&state), vec![3]);
}

#[test]
fn full_log_drops_oldest_and_forces_snapshot() {
    let mut state = ResumeState::new(2);
    for i in 1..=3 {
        state.send(joined(i));
    }
    assert_eq!(log_seqs(&state), vec![2, 3]);
    assert!(matches!(state.resume_from(0), Err(SequenceError::HistoryLost)));
    let replay = state.resume_from(1).unwrap();
    assert_eq!(replay.iter().map(|e| e.seq).collect::<Vec<u64>>(), vec![2, 3]);
    let mut empty = ResumeState::new(0);
    let out = empty.send(joined(1));
    assert!(out.retained);
    assert!(empty.log().is_empty());
    assert!(matches!(empty.resume_from(0), Err(SequenceError::HistoryLost)));
}

#[test]
fn piggyback_ack_follows_inbound_order() {
    let mut state = ResumeState::fresh();
    assert_eq!(state.ack_to_send(), None);
    assert_eq!(state.receive(1), InboundOrder::InOrder);
    assert_eq!(state.receive(1), InboundOrder::Duplicate);
    assert_eq!(state.receive(3), InboundOrder::Gap);
    assert_eq!(state.last_received_seq(), 1);
    assert_eq!(state.receive(2), InboundOrder::InOrder);
    let out = state.send(joined(1));
    assert_eq!(out.ack, Some(2));
}

#[test]
fn foreign_and_unknown_sessions_start_fresh() {
    let mut registry = SessionRegistry::new(RECONNECT_GRACE_MS as u64);
    let (id, state) = fresh(&mut registry, 0);
    registry.park(id, OWNER, state, 0);
    match registry.identify(OWNER + 1, Some(id), Some(0), 10) {
        Identified::Fresh { refused, .. } => assert_eq!(refused, Some(Unresumable::ForeignSession)),
        _ => panic!("expected a fresh session"),
    }
    assert!(registry.is_parked(id));
    match registry.identify(OWNER, None, Some(0), 10) {
        Identified::Fresh { refused, .. } => assert_eq!(refused, Some(Unresumable::UnknownSession)),
        _ => panic!("expected a fresh session"),
    }
}

#[test]
fn expiry_discards_only_elapsed_sessions() {
    let mut registry = SessionRegistry::new(1_000);
    let (a, sa) = fresh(&mut registry, 0);
    let (b, sb) = fresh(&mut registry, 0);
    registry.park(a, 1, sa, 0);
    registry.park(b, 2, sb, 500);
    assert_eq!(registry.expire(999), vec![]);
    assert_eq!(registry.expire(1_000), vec![(a, 1)]);
    assert!(registry.is_parked(b));
    assert_eq!(registry.expire(1_500), vec![(b, 2)]);
    assert_eq!(registry.len(), 0);
}

#[test]
fn resume_with_lost_history_asks_for_snapshot() {
    let mut registry = SessionRegistry::new(RECONNECT_GRACE_MS as u64);
    let (id, mut state) = fresh(&mut registry, 0);
    for i in 1..=3 {
        state.send(joined(i));
    }
    state.acknowledge(2).unwrap();
    registry.park(id, OWNER, state, 0);
    match registry.identify(OWNER, Some(id), Some(1), 10) {
        Identified::Resync { session_id, state, reason } => {
            assert_eq!(session_id, id);
            assert_eq!(reason, SequenceError::HistoryLost);
            assert_eq!(state.last_sent_seq(), 3);
        }
        _ => panic!("expected a resync"),
    }
}

#[test]
fn inbound_metadata_acks_then_orders() {
    let mut state = ResumeState::fresh();
    for i in 1..=3 {
        state.send(joined(i));
    }
    assert_eq!(state.on_inbound(Some(1), Some(2)), Ok(Some(InboundOrder::InOrder)));
    assert_eq!(log_seqs(&state), vec![3]);
    assert_eq!(state.last_acked_by_peer(), Some(2));
    assert_eq!(state.on_inbound(Some(1), None), Ok(Some(InboundOrder::Duplicate)));
    assert_eq!(state.on_inbound(None, None), Ok(None));
    assert_eq!(state.on_inbound(Some(2), Some(9)), Err(SequenceError::AheadOfSent));
    assert_eq!(state.last_received_seq(), 1);
    assert_eq!(state.on_inbound(Some(4), Some(3)), Ok(Some(InboundOrder::Gap)));
    assert!(state.log().is_empty());
}

#[test]
fn clock_reading_becomes_timestamp() {
    assert_eq!(millis_or_zero(None), 0);
    assert_eq!(millis_or_zero(Some(1_701_234_567_890)), 1_701_234_567_890);
    assert_eq!(millis_or_zero(Some((1u128 << 64) + 5)), 5);
    let env = Envelope::stamped(4, Some(3), "p", Some(12_345));
    assert_eq!((env.seq, env.ack, env.timestamp, env.payload), (4, Some(3), 12_345, "p"));
    let env = Envelope::stamped(4, None, "p", None);
    assert_eq!((env.ack, env.timestamp), (None, 0));
}
