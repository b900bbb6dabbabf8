//! Format negotiation between legacy and enveloped peers.
//!
//! On ingress a document is read as an envelope when its top-level members
//! have the envelope's shape, and as a bare payload otherwise. On egress a
//! payload is wrapped in an envelope exactly when the caller supplies a
//! sequence number. Neither direction looks inside the payload.

use super::envelope::{Envelope, MaybeEnveloped};
use super::server_messages::{GameSnapshot, ServerMessage};
use super::json::{
    as_unsigned, field, find_member, member, member_from, unsigned_member, Json, JsonNumber,
};
use vstd::prelude::*;

verus! {

/// How the `ack` member of an envelope reads: `Some(None)` when it is absent
/// or `null`, `Some(Some(a))` for a non-negative integer `a`, and `None` when
/// it holds anything else (the document is then no envelope).
pub open spec fn ack_reading(v: Option<Json>) -> Option<Option<u64>> {
    match v {
        None => Some(None),
        Some(Json::Null) => Some(None),
        Some(Json::Number(JsonNumber::Unsigned(a))) => Some(Some(a)),
        _ => None,
    }
}

/// How a document is read: an envelope when it is an object whose `seq` and
/// `ts` members are non-negative integers, whose `ack` member is absent,
/// `null` or a non-negative integer, and which has a `payload` member; the
/// whole document as a bare payload otherwise. Other members are ignored.
pub open spec fn spec_decode(doc: Json) -> MaybeEnveloped<Json> {
    match doc {
        Json::Object(members) => {
            let m = members@;
            match (
                as_unsigned(member(m, "seq"@)),
                as_unsigned(member(m, "ts"@)),
                ack_reading(member(m, "ack"@)),
                member(m, "payload"@),
            ) {
                (Some(seq), Some(ts), Some(ack), Some(payload)) => MaybeEnveloped::Enveloped(
                    Envelope { seq, ack, timestamp: ts, payload },
                ),
                _ => MaybeEnveloped::Raw(doc),
            }
        },
        _ => MaybeEnveloped::Raw(doc),
    }
}

/// What ingress reports for a document: its payload, its sequence number and
/// its acknowledgment.
pub open spec fn spec_inbound(doc: Json) -> (Json, Option<u64>, Option<u64>) {
    let d = spec_decode(doc);
    (d.spec_payload(), d.spec_seq(), d.spec_ack())
}

/// Member `p` is named `key` and holds `value`.
pub open spec fn is_member(p: (String, Json), key: Seq<char>, value: Json) -> bool {
    p.0@ == key && p.1 == value
}

/// `doc` is the document written for `env`: the members `seq`, `ack` (only
/// when there is an acknowledgment), `ts` and `payload`, in that order.
pub open spec fn is_envelope_document(doc: Json, env: Envelope<Json>) -> bool {
    match doc {
        Json::Object(members) => {
            let m = members@;
            &&& m.len() > 0
            &&& is_member(m[0], "seq"@, Json::Number(JsonNumber::Unsigned(env.seq)))
            &&& match env.ack {
                Some(a) => {
                    &&& m.len() == 4
                    &&& is_member(m[1], "ack"@, Json::Number(JsonNumber::Unsigned(a)))
                    &&& is_member(m[2], "ts"@, Json::Number(JsonNumber::Unsigned(env.timestamp)))
                    &&& is_member(m[3], "payload"@, env.payload)
                },
                None => {
                    &&& m.len() == 3
                    &&& is_member(m[1], "ts"@, Json::Number(JsonNumber::Unsigned(env.timestamp)))
                    &&& is_member(m[2], "payload"@, env.payload)
                },
            }
        },
        _ => false,
    }
}

/// How the `ack` member reads (see [`ack_reading`]).
fn read_ack_member(members: &Vec<(String, Json)>) -> (r: Option<Option<u64>>)
    ensures
        r == ack_reading(member(members@, "ack"@)),
{
    match find_member(members, "ack") {
        None => Some(None),
        Some(i) => match &members[i].1 {
            Json::Null => Some(None),
            Json::Number(JsonNumber::Unsigned(a)) => Some(Some(*a)),
            _ => None,
        },
    }
}

/// Read a document as an envelope if it has the envelope's shape, else as a
/// bare payload.
pub fn decode_document(doc: Json) -> (r: MaybeEnveloped<Json>)
    ensures
        r == spec_decode(doc),
{
    match doc {
        Json::Object(mut members) => {
            let seq = unsigned_member(&members, "seq");
            let ts = unsigned_member(&members, "ts");
            let ack = read_ack_member(&members);
            let at = find_member(&members, "payload");
            match (seq, ts, ack, at) {
                (Some(seq), Some(ts), Some(ack), Some(i)) => {
                    let (_, payload) = members.remove(i);
                    MaybeEnveloped::Enveloped(Envelope { seq, ack, timestamp: ts, payload })
                },
                _ => MaybeEnveloped::Raw(Json::Object(members)),
            }
        },
        other => MaybeEnveloped::Raw(other),
    }
}

/// Ingress: the payload of a document with its sequence number and
/// acknowledgment, `(payload, None, None)` for a bare payload.
pub fn read_inbound(doc: Json) -> (r: (Json, Option<u64>, Option<u64>))
    ensures
        r == spec_inbound(doc),
{
    let decoded = decode_document(doc);
    let seq = decoded.seq();
    let ack = decoded.ack();
    (decoded.into_payload(), seq, ack)
}

/// Write the document for an envelope.
pub fn encode_envelope(env: Envelope<Json>) -> (r: Json)
    ensures
        is_envelope_document(r, env),
{
    let mut members: Vec<(String, Json)> = Vec::new();
    members.push(("seq".to_owned(), Json::Number(JsonNumber::Unsigned(env.seq))));
    match env.ack {
        Some(a) => members.push(("ack".to_owned(), Json::Number(JsonNumber::Unsigned(a)))),
        None => {},
    }
    members.push(("ts".to_owned(), Json::Number(JsonNumber::Unsigned(env.timestamp))));
    members.push(("payload".to_owned(), env.payload));
    Json::Object(members)
}

/// Egress with a given clock reading: the envelope document for `payload`
/// when a sequence number is supplied, the bare payload otherwise (an `ack`
/// without a sequence number is then not sent).
pub fn frame_outbound_at(payload: Json, seq: Option<u64>, ack: Option<u64>, timestamp: u64) -> (r:
    Json)
    ensures
        match seq {
            None => r == payload,
            Some(s) => is_envelope_document(r, Envelope { seq: s, ack, timestamp, payload }),
        },
{
    match seq {
        None => payload,
        Some(s) => encode_envelope(Envelope { seq: s, ack, timestamp, payload }),
    }
}

/// Egress: the envelope document for `payload`, stamped with the current
/// time, when a sequence number is supplied; the bare payload otherwise.
pub fn frame_outbound(payload: Json, seq: Option<u64>, ack: Option<u64>) -> (r: Json)
    ensures
        match seq {
            None => r == payload,
            Some(s) => exists|ts: u64|
                #[trigger] is_envelope_document(
                    r,
                    Envelope { seq: s, ack, timestamp: ts, payload },
                ),
        },
{
    match seq {
        None => payload,
        Some(s) => {
            let env = match ack {
                Some(a) => Envelope::with_ack(s, a, payload),
                None => Envelope::new(s, payload),
            };
            let ghost ts = env.timestamp;
            let r = encode_envelope(env);
            assert(is_envelope_document(r, Envelope { seq: s, ack, timestamp: ts, payload }));
            r
        },
    }
}

/// The flat legacy `game_state` message carrying a snapshot's state, for
/// clients that have not upgraded. The snapshot's own player view and turn
/// time are not part of it.
pub fn snapshot_to_legacy_game_state(snapshot: GameSnapshot) -> (r: ServerMessage)
    ensures
        r matches ServerMessage::GameStateUpdate {
            game_id,
            state,
            grid,
            players,
            current_turn,
            round,
            max_rounds,
            used_words,
            spectators,
            timer_vote_state,
        } && game_id == snapshot.game_id && state@ == snapshot.state.spec_legacy_name() && grid
            == snapshot.grid && players == snapshot.players && current_turn == snapshot.current_turn
            && round == snapshot.round as i32 && max_rounds == snapshot.max_rounds as i32
            && used_words == snapshot.used_words && spectators == snapshot.spectators
            && timer_vote_state == snapshot.timer_vote_state,
{
    ServerMessage::GameStateUpdate {
        game_id: snapshot.game_id,
        state: snapshot.state.legacy_name().to_owned(),
        grid: snapshot.grid,
        players: snapshot.players,
        current_turn: snapshot.current_turn,
        round: snapshot.round as i32,
        max_rounds: snapshot.max_rounds as i32,
        used_words: snapshot.used_words,
        spectators: snapshot.spectators,
        timer_vote_state: snapshot.timer_vote_state,
    }
}

/// Decoding the document written for an envelope gives back that envelope
/// exactly, so ingress reports its payload, sequence number and
/// acknowledgment.
pub proof fn lemma_envelope_round_trip(doc: Json, env: Envelope<Json>)
    requires
        is_envelope_document(doc, env),
    ensures
        spec_decode(doc) == MaybeEnveloped::Enveloped(env),
        spec_inbound(doc) == (env.payload, Some(env.seq), env.ack),
{
    reveal_strlit("seq");
    reveal_strlit("ack");
    reveal_strlit("ts");
    reveal_strlit("payload");
    let m = doc->Object_0@;
    assert("seq"@ != "ack"@) by {
        assert("seq"@[0] != "ack"@[0]);
    }
    assert("seq"@ != "ts"@) by {
        assert("seq"@.len() != "ts"@.len());
    }
    assert("seq"@ != "payload"@) by {
        assert("seq"@.len() != "payload"@.len());
    }
    assert("ack"@ != "ts"@) by {
        assert("ack"@.len() != "ts"@.len());
    }
    assert("ack"@ != "payload"@) by {
        assert("ack"@.len() != "payload"@.len());
    }
    assert("ts"@ != "payload"@) by {
        assert("ts"@.len() != "payload"@.len());
    }
    assert(member(m, "seq"@) == Some(m[0].1));
    match env.ack {
        Some(a) => {
            assert(member_from(m, "ack"@, 0) == member_from(m, "ack"@, 1));
            assert(member(m, "ack"@) == Some(m[1].1));
            assert(member(m, "ts"@) == Some(m[2].1)) by {
                assert(member_from(m, "ts"@, 0) == member_from(m, "ts"@, 1));
                assert(member_from(m, "ts"@, 1) == member_from(m, "ts"@, 2));
            }
            assert(member(m, "payload"@) == Some(m[3].1)) by {
                assert(member_from(m, "payload"@, 0) == member_from(m, "payload"@, 1));
                assert(member_from(m, "payload"@, 1) == member_from(m, "payload"@, 2));
                assert(member_from(m, "payload"@, 2) == member_from(m, "payload"@, 3));
            }
        },
        None => {
            assert(member(m, "ack"@) is None) by {
                assert(member_from(m, "ack"@, 0) == member_from(m, "ack"@, 1));
                assert(member_from(m, "ack"@, 1) == member_from(m, "ack"@, 2));
                assert(member_from(m, "ack"@, 2) == member_from(m, "ack"@, 3));
            }
            assert(member(m, "ts"@) == Some(m[1].1)) by {
                assert(member_from(m, "ts"@, 0) == member_from(m, "ts"@, 1));
            }
            assert(member(m, "payload"@) == Some(m[2].1)) by {
                assert(member_from(m, "payload"@, 0) == member_from(m, "payload"@, 1));
                assert(member_from(m, "payload"@, 1) == member_from(m, "payload"@, 2));
            }
        },
    }
}

/// A document without a top-level `seq` member is read as a bare payload:
/// ingress reports the document itself, with no sequence number and no
/// acknowledgment.
pub proof fn lemma_unsequenced_is_raw(doc: Json)
    requires
        field(doc, "seq"@) is None,
    ensures
        spec_decode(doc) == MaybeEnveloped::<Json>::Raw(doc),
        spec_inbound(doc) == (doc, None::<u64>, None::<u64>),
{
}

} // verus!
