//! Per-connection delivery state: sequence numbers, acknowledgments and the
//! replay log used to resume a session after a disconnect.
//!
//! Every outbound message gets the next sequence number. Messages that a
//! resuming client must not miss are kept in a bounded log, oldest first,
//! until the peer acknowledges them. On resumption from sequence number `k`
//! the log's entries after `k` are replayed, or, when some of them are no
//! longer held, the caller is told to send a full snapshot instead.

use super::server_messages::ServerMessage;
use std::sync::Arc;
use vstd::prelude::*;

verus! {

/// Number of log entries kept by [`ResumeState::fresh`].
pub const DEFAULT_REPLAY_CAPACITY: usize = 1024;

/// Relies on `Arc::clone`: the new handle points to the same message.
#[verifier::external_body]
fn share(message: &Arc<ServerMessage>) -> (r: Arc<ServerMessage>)
    ensures
        *r == **message,
{
    Arc::clone(message)
}

/// A message kept for replay, under the sequence number it was sent with.
pub struct LogEntry {
    pub seq: u64,
    pub message: Arc<ServerMessage>,
}

/// The sequence number and message of each entry.
pub open spec fn entries_model(entries: Seq<LogEntry>) -> Seq<(u64, ServerMessage)> {
    entries.map_values(|e: LogEntry| (e.seq, *e.message))
}

/// Abstract delivery state of one connection.
pub ghost struct ResumeModel {
    /// Highest sequence number sent; 0 before the first send.
    pub last_sent: u64,
    /// Highest sequence number the peer has acknowledged.
    pub acked: Option<u64>,
    /// Every replay-eligible message sent after this sequence number is in
    /// the log; those at or before it may have been dropped.
    pub horizon: u64,
    /// The replay log, oldest first.
    pub log: Seq<(u64, ServerMessage)>,
    /// Most entries the log holds.
    pub capacity: nat,
    /// Highest in-order sequence number received from the peer; 0 before
    /// the first.
    pub last_received: u64,
    /// Every message sent so far, with its sequence number, in send order.
    pub sent: Seq<(u64, ServerMessage)>,
}

/// The state of a connection that has sent and received nothing yet.
pub open spec fn fresh_model(capacity: nat) -> ResumeModel {
    ResumeModel {
        last_sent: 0,
        acked: None,
        horizon: 0,
        log: Seq::empty(),
        capacity,
        last_received: 0,
        sent: Seq::empty(),
    }
}

/// How far the run of entries at or before `a` reaches from position `i`.
pub open spec fn leading_upto(log: Seq<(u64, ServerMessage)>, a: u64, i: int) -> int
    decreases log.len() - i,
{
    if 0 <= i < log.len() && log[i].0 <= a {
        leading_upto(log, a, i + 1)
    } else {
        i
    }
}

/// Entries sent after `a`.
pub open spec fn after(a: u64) -> spec_fn((u64, ServerMessage)) -> bool {
    |e: (u64, ServerMessage)| e.0 > a
}

/// Replay-eligible entries sent after `h`.
pub open spec fn eligible_after(h: u64) -> spec_fn((u64, ServerMessage)) -> bool {
    |e: (u64, ServerMessage)| e.0 > h && e.1.spec_replayable()
}

/// The log without its entries at or before `a`.
pub open spec fn trimmed(log: Seq<(u64, ServerMessage)>, a: u64) -> Seq<(u64, ServerMessage)> {
    log.filter(after(a))
}

/// Sequence numbers in the log strictly increase.
pub open spec fn ascending(log: Seq<(u64, ServerMessage)>) -> bool {
    forall|i: int, j: int| 0 <= i < j < log.len() ==> log[i].0 < log[j].0
}

/// Larger of an optional value and a value.
pub open spec fn max_ack(acked: Option<u64>, a: u64) -> u64 {
    match acked {
        Some(b) if b > a => b,
        _ => a,
    }
}

impl ResumeModel {
    /// The invariant of the delivery state.
    pub open spec fn wf(self) -> bool {
        &&& self.horizon <= self.last_sent
        &&& self.log.len() <= self.capacity
        &&& ascending(self.log)
        &&& forall|i: int|
            0 <= i < self.log.len() ==> self.horizon < #[trigger] self.log[i].0 <= self.last_sent
        &&& forall|i: int| 0 <= i < self.log.len() ==> (#[trigger] self.log[i]).1.spec_replayable()
        &&& match self.acked {
            Some(a) => a <= self.horizon,
            None => true,
        }
        &&& self.sent.len() == self.last_sent
        &&& forall|i: int| 0 <= i < self.sent.len() ==> #[trigger] self.sent[i].0 == i + 1
        &&& self.log == self.sent.filter(eligible_after(self.horizon))
    }

    /// The acknowledgment to piggyback on the next outbound message.
    pub open spec fn ack_to_send(self) -> Option<u64> {
        if self.last_received == 0 {
            None
        } else {
            Some(self.last_received)
        }
    }

    /// The state after `(seq, m)` is added to the log: when the log is full
    /// its oldest entry is dropped to make room, and a log that holds nothing
    /// keeps nothing.
    pub open spec fn logged(self, seq: u64, m: ServerMessage) -> ResumeModel {
        if self.capacity == 0 {
            ResumeModel { horizon: seq, ..self }
        } else if self.log.len() < self.capacity {
            ResumeModel { log: self.log.push((seq, m)), ..self }
        } else {
            ResumeModel { log: self.log.drop_first().push((seq, m)), horizon: self.log[0].0, ..self }
        }
    }

    /// The state after sending `m`: it takes the next sequence number and is
    /// logged when it is replay-eligible.
    pub open spec fn after_send(self, m: ServerMessage) -> ResumeModel {
        let seq = (self.last_sent + 1) as u64;
        let bumped = ResumeModel { last_sent: seq, sent: self.sent.push((seq, m)), ..self };
        if m.spec_replayable() {
            bumped.logged(seq, m)
        } else {
            bumped
        }
    }

    /// The state after the peer acknowledges everything up to `a`.
    pub open spec fn after_ack(self, a: u64) -> ResumeModel {
        ResumeModel {
            acked: Some(max_ack(self.acked, a)),
            horizon: if self.horizon > a {
                self.horizon
            } else {
                a
            },
            log: trimmed(self.log, a),
            ..self
        }
    }

    /// Whether a resumption from `k` can be served from the log: nothing
    /// after `k` was dropped, and `k` was actually sent.
    pub open spec fn can_resume_from(self, k: u64) -> bool {
        self.horizon <= k <= self.last_sent
    }
}

/// Where an inbound sequence number stands against those already received.
#[derive(Debug, Clone, Copy, PartialEq, Eq, Structural)]
pub enum InboundOrder {
    /// The next expected number: accepted.
    InOrder,
    /// Already received: to be dropped.
    Duplicate,
    /// Numbers were skipped: not to be handed on; a resync is needed.
    Gap,
}

/// Where `seq` stands when `last` is the highest in-order number received.
pub open spec fn inbound_order(last: u64, seq: u64) -> InboundOrder {
    if seq <= last {
        InboundOrder::Duplicate
    } else if seq == last + 1 {
        InboundOrder::InOrder
    } else {
        InboundOrder::Gap
    }
}

/// Why an acknowledgment or a resumption point was refused.
#[derive(Debug, Clone, Copy, PartialEq, Eq, Structural)]
pub enum SequenceError {
    /// The peer named a sequence number that was never sent.
    AheadOfSent,
    /// Messages after the resumption point are no longer held: a full
    /// snapshot must be sent instead of a replay.
    HistoryLost,
}

/// What a send hands to the transport.
pub struct Outbound {
    /// Sequence number of this message.
    pub seq: u64,
    /// Piggyback acknowledgment of the peer's messages.
    pub ack: Option<u64>,
    /// The message.
    pub message: Arc<ServerMessage>,
    /// Whether the message was kept for replay.
    pub retained: bool,
}

/// Delivery state of one connection direction, owned by the connection that
/// uses it (or parked in a session registry between connections).
pub struct ResumeState {
    last_sent_seq: u64,
    last_acked_by_peer: Option<u64>,
    horizon: u64,
    replay_log: Vec<LogEntry>,
    capacity: usize,
    last_received_seq: u64,
    history: Ghost<Seq<(u64, ServerMessage)>>,
}

impl View for ResumeState {
    type V = ResumeModel;

    closed spec fn view(&self) -> ResumeModel {
        ResumeModel {
            last_sent: self.last_sent_seq,
            acked: self.last_acked_by_peer,
            horizon: self.horizon,
            log: entries_model(self.replay_log@),
            capacity: self.capacity as nat,
            last_received: self.last_received_seq,
            sent: self.history@,
        }
    }
}

/// Leading entries at or before `a` all are, and the entry right after them
/// is not.
pub proof fn lemma_leading_upto(log: Seq<(u64, ServerMessage)>, a: u64, i: int)
    requires
        0 <= i <= log.len(),
    ensures
        i <= leading_upto(log, a, i) <= log.len(),
        forall|j: int| i <= j < leading_upto(log, a, i) ==> log[j].0 <= a,
        leading_upto(log, a, i) < log.len() ==> log[leading_upto(log, a, i)].0 > a,
    decreases log.len() - i,
{
    if i < log.len() && log[i].0 <= a {
        lemma_leading_upto(log, a, i + 1);
    }
}

/// Where the run of entries at or before `a` ends after one more entry is
/// pushed.
proof fn lemma_leading_push(t: Seq<(u64, ServerMessage)>, x: (u64, ServerMessage), a: u64, i: int)
    requires
        0 <= i <= t.len(),
    ensures
        leading_upto(t.push(x), a, i) == if leading_upto(t, a, i) < t.len() {
            leading_upto(t, a, i)
        } else if x.0 <= a {
            t.len() + 1 as int
        } else {
            t.len() as int
        },
    decreases t.len() - i,
{
    let s = t.push(x);
    if i < t.len() {
        assert(s[i] == t[i]);
        if t[i].0 <= a {
            lemma_leading_push(t, x, a, i + 1);
        }
    } else {
        assert(s[i] == x);
        if x.0 <= a {
            assert(leading_upto(s, a, i + 1) == i + 1);
        }
    }
}

/// In an ascending log the entries after `a` are the log past its leading
/// run of entries at or before `a`.
proof fn lemma_trimmed_skip(log: Seq<(u64, ServerMessage)>, a: u64)
    requires
        ascending(log),
    ensures
        trimmed(log, a) == log.skip(leading_upto(log, a, 0)),
    decreases log.len(),
{
    lemma_leading_upto(log, a, 0);
    if log.len() == 0 {
        log.lemma_filter_len(after(a));
        assert(trimmed(log, a) =~= log.skip(0));
    } else {
        let t = log.drop_last();
        let x = log.last();
        assert(log =~= t.push(x));
        assert(ascending(t)) by {
            assert forall|i: int, j: int| 0 <= i < j < t.len() implies t[i].0 < t[j].0 by {
                assert(t[i] == log[i] && t[j] == log[j]);
            }
        }
        lemma_trimmed_skip(t, a);
        t.lemma_filter_push(x, after(a));
        lemma_leading_push(t, x, a, 0);
        lemma_leading_upto(t, a, 0);
        let k = leading_upto(t, a, 0);
        if k < t.len() {
            assert(t[k] == log[k]);
            assert(log[k].0 < log[log.len() - 1].0);
            assert(log.skip(k) =~= t.skip(k).push(x));
        } else if x.0 > a {
            assert(log.skip(k) =~= t.skip(k).push(x));
        } else {
            assert(log.skip(k + 1) =~= t.skip(k));
        }
    }
}

/// In an ascending log, trimming at `a` keeps exactly the entries after `a`,
/// in order.
pub proof fn lemma_trimmed_is_tail(log: Seq<(u64, ServerMessage)>, a: u64)
    requires
        ascending(log),
    ensures
        0 <= leading_upto(log, a, 0) <= log.len(),
        trimmed(log, a) == log.skip(leading_upto(log, a, 0)),
        forall|j: int| 0 <= j < leading_upto(log, a, 0) ==> log[j].0 <= a,
        forall|j: int| leading_upto(log, a, 0) <= j < log.len() ==> log[j].0 > a,
        forall|e: (u64, ServerMessage)| #[trigger]
            trimmed(log, a).contains(e) <==> (log.contains(e) && e.0 > a),
{
    lemma_leading_upto(log, a, 0);
    lemma_trimmed_skip(log, a);
    let k = leading_upto(log, a, 0);
    assert forall|j: int| k <= j < log.len() implies log[j].0 > a by {
        if j > k {
            assert(log[k].0 < log[j].0);
        }
    }
    assert forall|e: (u64, ServerMessage)| #[trigger]
        trimmed(log, a).contains(e) <==> (log.contains(e) && e.0 > a) by {
        if trimmed(log, a).contains(e) {
            let t = choose|t: int| 0 <= t < trimmed(log, a).len() && trimmed(log, a)[t] == e;
            assert(log[k + t] == e);
        }
        if log.contains(e) && e.0 > a {
            let t = choose|t: int| 0 <= t < log.len() && log[t] == e;
            assert(trimmed(log, a)[t - k] == e);
        }
    }
}

/// Keeping the eligible entries after `h` and then those after `c` keeps the
/// eligible entries after the larger of the two.
proof fn lemma_filter_compose(s: Seq<(u64, ServerMessage)>, h: u64, c: u64)
    ensures
        trimmed(s.filter(eligible_after(h)), c) == s.filter(
            eligible_after(
                if h > c {
                    h
                } else {
                    c
                },
            ),
        ),
    decreases s.len(),
{
    let m = if h > c {
        h
    } else {
        c
    };
    if s.len() == 0 {
        s.lemma_filter_len(eligible_after(h));
        s.lemma_filter_len(eligible_after(m));
        s.filter(eligible_after(h)).lemma_filter_len(after(c));
        assert(trimmed(s.filter(eligible_after(h)), c) =~= s.filter(eligible_after(m)));
    } else {
        let t = s.drop_last();
        let x = s.last();
        assert(s =~= t.push(x));
        lemma_filter_compose(t, h, c);
        t.lemma_filter_push(x, eligible_after(h));
        t.lemma_filter_push(x, eligible_after(m));
        t.filter(eligible_after(h)).lemma_filter_push(x, after(c));
    }
}

/// Sequence numbers handed out by sending `msgs` one after another from `s`.
pub open spec fn emitted(s: ResumeModel, msgs: Seq<ServerMessage>) -> Seq<u64>
    decreases msgs.len(),
{
    if msgs.len() == 0 {
        Seq::empty()
    } else {
        seq![(s.last_sent + 1) as u64] + emitted(s.after_send(msgs[0]), msgs.drop_first())
    }
}

/// Acknowledging the same sequence number twice leaves the state exactly
/// as acknowledging it once: the second acknowledgment trims nothing more.
pub proof fn lemma_ack_idempotent(s: ResumeModel, a: u64)
    requires
        s.wf(),
        a <= s.last_sent,
    ensures
        s.after_ack(a).after_ack(a) == s.after_ack(a),
{
    lemma_trimmed_is_tail(s.log, a);
    let t = trimmed(s.log, a);
    assert(ascending(t)) by {
        let k = leading_upto(s.log, a, 0);
        assert forall|i: int, j: int| 0 <= i < j < t.len() implies t[i].0 < t[j].0 by {
            assert(t[i] == s.log[k + i] && t[j] == s.log[k + j]);
        }
    }
    lemma_leading_upto(t, a, 0);
    if t.len() > 0 {
        let k = leading_upto(s.log, a, 0);
        assert(t[0] == s.log[k]);
    }
    assert(leading_upto(t, a, 0) == 0);
    lemma_trimmed_skip(t, a);
    assert(t.skip(0) =~= t);
}

/// Across any run of sends on one connection direction the sequence numbers
/// handed out are consecutive, starting right after the last one sent:
/// strictly increasing, with no repeats and no gaps. An acknowledgment in
/// between does not move the counter.
pub proof fn lemma_sends_consecutive(s: ResumeModel, msgs: Seq<ServerMessage>, a: u64)
    requires
        s.last_sent + msgs.len() <= u64::MAX,
    ensures
        emitted(s, msgs).len() == msgs.len(),
        forall|i: int| 0 <= i < msgs.len() ==> #[trigger] emitted(s, msgs)[i] == s.last_sent + 1 + i,
        s.after_ack(a).last_sent == s.last_sent,
    decreases msgs.len(),
{
    if msgs.len() > 0 {
        let next = s.after_send(msgs[0]);
        assert(next.last_sent == s.last_sent + 1);
        lemma_sends_consecutive(next, msgs.drop_first(), a);
        assert forall|i: int| 0 <= i < msgs.len() implies #[trigger] emitted(s, msgs)[i]
            == s.last_sent + 1 + i by {
            if i > 0 {
                assert(emitted(s, msgs)[i] == emitted(next, msgs.drop_first())[i - 1]);
            }
        }
    }
}

/// A resumption from `k` that the log can serve replays exactly the
/// replay-eligible messages sent after `k`, in the order they were sent
/// (ascending sequence numbers), and nothing else.
pub proof fn lemma_replay_complete(s: ResumeModel, k: u64)
    requires
        s.wf(),
        s.can_resume_from(k),
    ensures
        s.after_ack(k).log == s.sent.filter(eligible_after(k)),
        ascending(s.after_ack(k).log),
        forall|e: (u64, ServerMessage)| #[trigger]
            s.after_ack(k).log.contains(e) <==> (s.log.contains(e) && e.0 > k),
{
    lemma_filter_compose(s.sent, s.horizon, k);
    lemma_trimmed_is_tail(s.log, k);
    let t = trimmed(s.log, k);
    let n = leading_upto(s.log, k, 0);
    assert forall|i: int, j: int| 0 <= i < j < t.len() implies t[i].0 < t[j].0 by {
        assert(t[i] == s.log[n + i] && t[j] == s.log[n + j]);
    }
}

/// A message that the replay rule excludes is never replayed, even when it
/// was sent after the resumption point.
pub proof fn lemma_replay_excludes_transient(s: ResumeModel, k: u64, e: (u64, ServerMessage))
    requires
        s.wf(),
        s.can_resume_from(k),
        !e.1.spec_replayable(),
    ensures
        !s.after_ack(k).log.contains(e),
{
    lemma_replay_complete(s, k);
    if s.after_ack(k).log.contains(e) {
        let i = choose|i: int| 0 <= i < s.after_ack(k).log.len() && s.after_ack(k).log[i] == e;
        s.sent.lemma_filter_pred(eligible_after(k), i);
    }
}

/// When a message the replay rule excludes (a heartbeat acknowledgment, say)
/// is sent right before an eligible one (a player joining), a later
/// resumption from before both that the log can serve replays the eligible
/// one and never the excluded one.
pub proof fn lemma_transient_then_eligible(
    s: ResumeModel,
    h: ServerMessage,
    j: ServerMessage,
    k: u64,
)
    requires
        s.wf(),
        s.last_sent + 2 <= u64::MAX,
        !h.spec_replayable(),
        j.spec_replayable(),
        k <= s.last_sent,
        s.after_send(h).after_send(j).can_resume_from(k),
    ensures
        s.after_send(h).after_send(j).after_ack(k).log.contains(((s.last_sent + 2) as u64, j)),
        !s.after_send(h).after_send(j).after_ack(k).log.contains(((s.last_sent + 1) as u64, h)),
{
    let t1 = s.after_send(h);
    lemma_excluded_never_logged(s, h);
    let t = t1.after_send(j);
    lemma_excluded_never_logged(t1, j);
    lemma_replay_complete(t, k);
    lemma_replay_excludes_transient(t, k, ((s.last_sent + 1) as u64, h));
    let idx = t.sent.len() - 1;
    assert(t.sent[idx] == ((s.last_sent + 2) as u64, j));
    t.sent.lemma_filter_contains(eligible_after(k), idx);
}

/// Sending keeps the invariant, and a message the replay rule excludes never
/// enters the log: the log after the send is the log before it, up to the
/// oldest entry dropped for room, plus the message when it is eligible.
pub proof fn lemma_excluded_never_logged(s: ResumeModel, m: ServerMessage)
    requires
        s.wf(),
        s.last_sent < u64::MAX,
    ensures
        s.after_send(m).wf(),
        !m.spec_replayable() ==> s.after_send(m).log == s.log,
        forall|e: (u64, ServerMessage)| #[trigger]
            s.after_send(m).log.contains(e) ==> s.log.contains(e) || (e.0 == s.last_sent + 1
                && e.1 == m && m.spec_replayable()),
{
    let seq = (s.last_sent + 1) as u64;
    let r = s.after_send(m);
    let x = (seq, m);
    let sent2 = s.sent.push(x);
    assert(r.sent == sent2);
    assert forall|i: int| 0 <= i < sent2.len() implies #[trigger] sent2[i].0 == i + 1 by {
        if i < s.sent.len() {
            assert(sent2[i] == s.sent[i]);
        }
    }
    s.sent.lemma_filter_push(x, eligible_after(s.horizon));
    if m.spec_replayable() {
        if s.capacity == 0 {
            lemma_filter_compose(sent2, s.horizon, seq);
            assert(s.log =~= Seq::<(u64, ServerMessage)>::empty());
            Seq::<(u64, ServerMessage)>::empty().lemma_filter_push(x, after(seq));
            Seq::<(u64, ServerMessage)>::empty().lemma_filter_len(after(seq));
            assert(s.log.push(x).filter(after(seq)) =~= s.log);
        } else if s.log.len() >= s.capacity {
            let h2 = s.log[0].0;
            let big = s.log.push(x);
            lemma_filter_compose(sent2, s.horizon, h2);
            assert(ascending(big)) by {
                assert forall|i: int, j: int| 0 <= i < j < big.len() implies big[i].0 < big[j].0 by {
                    if j < s.log.len() {
                        assert(big[i] == s.log[i] && big[j] == s.log[j]);
                    } else {
                        assert(big[i] == s.log[i]);
                    }
                }
            }
            lemma_trimmed_skip(big, h2);
            assert(big[0] == s.log[0]);
            if s.log.len() > 1 {
                assert(big[1] == s.log[1]);
                assert(s.log[0].0 < s.log[1].0);
            }
            assert(leading_upto(big, h2, 1) == 1);
            assert(big.skip(1) =~= s.log.drop_first().push(x));
        }
    }
    if m.spec_replayable() && s.capacity != 0 {
        let base = if s.log.len() < s.capacity {
            s.log
        } else {
            s.log.drop_first()
        };
        assert(r.log == base.push((seq, m)));
        assert forall|e: (u64, ServerMessage)| #[trigger] r.log.contains(e) implies s.log.contains(e)
            || (e.0 == seq && e.1 == m && m.spec_replayable()) by {
            let i = choose|i: int| 0 <= i < r.log.len() && r.log[i] == e;
            if i < base.len() {
                if s.log.len() >= s.capacity {
                    assert(base[i] == s.log[i + 1]);
                }
            }
        }
        if s.log.len() >= s.capacity {
            assert forall|i: int| 0 <= i < r.log.len() implies r.horizon < #[trigger] r.log[i].0 <= r.last_sent by {
                if i < base.len() {
                    assert(base[i] == s.log[i + 1]);
                    assert(s.log[0].0 < s.log[i + 1].0);
                }
            }
            assert forall|i: int, j: int| 0 <= i < j < r.log.len() implies r.log[i].0 < r.log[j].0 by {
                if j < base.len() {
                    assert(base[i] == s.log[i + 1]);
                    assert(base[j] == s.log[j + 1]);
                } else if i < base.len() {
                    assert(base[i] == s.log[i + 1]);
                }
            }
            assert forall|i: int| 0 <= i < r.log.len() implies (#[trigger] r.log[i]).1.spec_replayable() by {
                if i < base.len() {
                    assert(base[i] == s.log[i + 1]);
                }
            }
        }
    }
}

impl ResumeState {
    /// The invariant of the delivery state.
    pub open spec fn wf(&self) -> bool {
        self@.wf()
    }

    /// A fresh connection's state: nothing sent, nothing received, an empty
    /// log that holds up to `capacity` entries.
    pub fn new(capacity: usize) -> (r: Self)
        ensures
            r.wf(),
            r@ == fresh_model(capacity as nat),
    {
        let r = ResumeState {
            last_sent_seq: 0,
            last_acked_by_peer: None,
            horizon: 0,
            replay_log: Vec::new(),
            capacity,
            last_received_seq: 0,
            history: Ghost(Seq::empty()),
        };
        proof {
            assert(r@.log =~= Seq::<(u64, ServerMessage)>::empty());
            Seq::<(u64, ServerMessage)>::empty().lemma_filter_len(eligible_after(0));
            assert(r@.log =~= Seq::<(u64, ServerMessage)>::empty().filter(eligible_after(0)));
        }
        r
    }

    /// A fresh connection's state with the default log capacity.
    pub fn fresh() -> (r: Self)
        ensures
            r.wf(),
            r@ == fresh_model(DEFAULT_REPLAY_CAPACITY as nat),
    {
        ResumeState::new(DEFAULT_REPLAY_CAPACITY)
    }

    /// Highest sequence number sent so far.
    pub fn last_sent_seq(&self) -> (r: u64)
        ensures
            r == self@.last_sent,
    {
        self.last_sent_seq
    }

    /// Highest sequence number the peer has acknowledged.
    pub fn last_acked_by_peer(&self) -> (r: Option<u64>)
        ensures
            r == self@.acked,
    {
        self.last_acked_by_peer
    }

    /// Highest in-order sequence number received from the peer.
    pub fn last_received_seq(&self) -> (r: u64)
        ensures
            r == self@.last_received,
    {
        self.last_received_seq
    }

    /// The entries of the replay log, oldest first.
    pub fn log(&self) -> (r: &Vec<LogEntry>)
        ensures
            entries_model(r@) == self@.log,
    {
        &self.replay_log
    }

    /// The acknowledgment to piggyback on the next outbound message.
    pub fn ack_to_send(&self) -> (r: Option<u64>)
        ensures
            r == self@.ack_to_send(),
    {
        if self.last_received_seq == 0 {
            None
        } else {
            Some(self.last_received_seq)
        }
    }

    /// Send `message`: it gets the next sequence number, carries the current
    /// piggyback acknowledgment, and is kept for replay exactly when it is
    /// replay-eligible. The classification is made here, once.
    pub fn send(&mut self, message: ServerMessage) -> (r: Outbound)
        requires
            old(self).wf(),
            old(self)@.last_sent < u64::MAX,
        ensures
            final(self).wf(),
            final(self)@ == old(self)@.after_send(message),
            r.seq == old(self)@.last_sent + 1,
            r.seq == final(self)@.last_sent,
            r.ack == old(self)@.ack_to_send(),
            *r.message == message,
            r.retained == message.spec_replayable(),
    {
        let ack = self.ack_to_send();
        let seq = self.last_sent_seq + 1;
        let ghost m0 = self@;
        self.last_sent_seq = seq;
        let ghost m = message;
        let message = Arc::new(message);
        self.history = Ghost(self.history@.push((seq, m)));
        let retained = message.should_store_for_replay();
        if retained {
            let kept = LogEntry { seq, message: share(&message) };
            if self.capacity == 0 {
                self.horizon = seq;
            } else if self.replay_log.len() < self.capacity {
                self.replay_log.push(kept);
                assert(self@.log =~= m0.log.push((seq, *message)));
            } else {
                let dropped = self.replay_log.remove(0);
                self.horizon = dropped.seq;
                self.replay_log.push(kept);
                assert(self@.log =~= m0.log.drop_first().push((seq, *message)));
            }
        }
        proof {
            lemma_excluded_never_logged(m0, m);
            let bumped = ResumeModel { last_sent: seq, sent: m0.sent.push((seq, m)), ..m0 };
            if retained {
                assert(self@ == bumped.logged(seq, *message));
            } else {
                assert(self@ == bumped);
            }
        }
        Outbound { seq, ack, message, retained }
    }

    /// Drop the leading log entries at or before `a` and advance the
    /// acknowledgment marks.
    fn trim_through(&mut self, a: u64)
        requires
            old(self).wf(),
            a <= old(self)@.last_sent,
        ensures
            final(self).wf(),
            final(self)@ == old(self)@.after_ack(a),
    {
        let ghost m0 = self@;
        let mut k: usize = 0;
        while k < self.replay_log.len() && self.replay_log[k].seq <= a
            invariant
                self@ == m0,
                k <= self.replay_log@.len(),
                leading_upto(m0.log, a, 0) == leading_upto(m0.log, a, k as int),
            decreases self.replay_log@.len() - k,
        {
            k = k + 1;
        }
        proof {
            lemma_trimmed_is_tail(m0.log, a);
        }
        let tail = self.replay_log.split_off(k);
        self.replay_log = tail;
        let acked = match self.last_acked_by_peer {
            Some(b) if b > a => b,
            _ => a,
        };
        self.last_acked_by_peer = Some(acked);
        if self.horizon < a {
            self.horizon = a;
        }
        proof {
            assert(self@.log =~= trimmed(m0.log, a));
            assert(self@ == m0.after_ack(a));
            lemma_filter_compose(m0.sent, m0.horizon, a);
        }
    }

    /// Record the peer's acknowledgment of everything up to `a`: log entries
    /// at or before `a` are dropped. Refused, with nothing changed, when `a`
    /// was never sent.
    pub fn acknowledge(&mut self, a: u64) -> (r: Result<(), SequenceError>)
        requires
            old(self).wf(),
        ensures
            final(self).wf(),
            a <= old(self)@.last_sent ==> r is Ok && final(self)@ == old(self)@.after_ack(a),
            a > old(self)@.last_sent ==> r == Err::<(), SequenceError>(SequenceError::AheadOfSent)
                && final(self)@ == old(self)@,
    {
        if a > self.last_sent_seq {
            return Err(SequenceError::AheadOfSent);
        }
        self.trim_through(a);
        Ok(())
    }

    /// Serve a resumption from sequence number `k` (the last one the client
    /// has processed). When every replay-eligible message after `k` is still
    /// in the log, `k` counts as acknowledged and the remaining log entries
    /// are returned: exactly the replay-eligible messages sent after `k`, in
    /// the order they were sent. Otherwise
    /// nothing changes and the error says why: `k` was never sent, or
    /// messages after `k` were dropped and a snapshot is needed.
    pub fn resume_from(&mut self, k: u64) -> (r: Result<Vec<LogEntry>, SequenceError>)
        requires
            old(self).wf(),
        ensures
            final(self).wf(),
            r is Ok <==> old(self)@.can_resume_from(k),
            match r {
                Ok(replay) => {
                    &&& final(self)@ == old(self)@.after_ack(k)
                    &&& entries_model(replay@) == final(self)@.log
                    &&& entries_model(replay@) == old(self)@.sent.filter(eligible_after(k))
                },
                Err(e) => {
                    &&& final(self)@ == old(self)@
                    &&& (e == SequenceError::AheadOfSent <==> k > old(self)@.last_sent)
                    &&& (e == SequenceError::HistoryLost <==> k <= old(self)@.last_sent && k
                        < old(self)@.horizon)
                },
            },
    {
        if k > self.last_sent_seq {
            return Err(SequenceError::AheadOfSent);
        }
        if k < self.horizon {
            return Err(SequenceError::HistoryLost);
        }
        proof {
            lemma_replay_complete(self@, k);
        }
        self.trim_through(k);
        let mut replay: Vec<LogEntry> = Vec::new();
        let mut i: usize = 0;
        while i < self.replay_log.len()
            invariant
                i <= self.replay_log@.len(),
                entries_model(replay@) == entries_model(self.replay_log@).take(i as int),
            decreases self.replay_log@.len() - i,
        {
            let entry = &self.replay_log[i];
            let copy = LogEntry { seq: entry.seq, message: share(&entry.message) };
            assert((copy.seq, *copy.message) == entries_model(self.replay_log@)[i as int]);
            let ghost before = replay@;
            replay.push(copy);
            assert(entries_model(replay@) =~= entries_model(before).push((copy.seq, *copy.message)));
            assert(entries_model(replay@) =~= entries_model(self.replay_log@).take(i + 1));
            i = i + 1;
        }
        assert(entries_model(self.replay_log@).take(i as int) =~= entries_model(self.replay_log@));
        Ok(replay)
    }

    /// Classify an inbound sequence number from the peer, and accept it when
    /// it is the next one expected.
    pub fn receive(&mut self, seq: u64) -> (r: InboundOrder)
        requires
            old(self).wf(),
        ensures
            final(self).wf(),
            r == InboundOrder::InOrder <==> seq == old(self)@.last_received + 1,
            r == InboundOrder::Duplicate <==> seq <= old(self)@.last_received,
            r == InboundOrder::InOrder ==> final(self)@ == (ResumeModel {
                last_received: seq,
                ..old(self)@
            }),
            r != InboundOrder::InOrder ==> final(self)@ == old(self)@,
    {
        if seq <= self.last_received_seq {
            InboundOrder::Duplicate
        } else if seq - self.last_received_seq == 1 {
            self.last_received_seq = seq;
            InboundOrder::InOrder
        } else {
            InboundOrder::Gap
        }
    }
    /// Take in the delivery metadata of an inbound message: its piggyback
    /// acknowledgment first, then its sequence number. A legacy message
    /// carries neither and changes nothing. An acknowledgment of something
    /// never sent refuses the whole message, with nothing changed.
    pub fn on_inbound(&mut self, seq: Option<u64>, ack: Option<u64>) -> (r: Result<
        Option<InboundOrder>,
        SequenceError,
    >)
        requires
            old(self).wf(),
        ensures
            final(self).wf(),
            match ack {
                Some(a) if a > old(self)@.last_sent => r == Err::<Option<InboundOrder>, SequenceError>(
                    SequenceError::AheadOfSent,
                ) && final(self)@ == old(self)@,
                _ => {
                    let mid = match ack {
                        Some(a) => old(self)@.after_ack(a),
                        None => old(self)@,
                    };
                    match seq {
                        None => r == Ok::<Option<InboundOrder>, SequenceError>(None) && final(self)@
                            == mid,
                        Some(s) => {
                            &&& r == Ok::<Option<InboundOrder>, SequenceError>(
                                Some(inbound_order(old(self)@.last_received, s)),
                            )
                            &&& final(self)@ == if inbound_order(old(self)@.last_received, s)
                                == InboundOrder::InOrder {
                                ResumeModel { last_received: s, ..mid }
                            } else {
                                mid
                            }
                        },
                    }
                },
            },
    {
        if let Some(a) = ack {
            if let Err(e) = self.acknowledge(a) {
                return Err(e);
            }
        }
        match seq {
            None => Ok(None),
            Some(s) => Ok(Some(self.receive(s))),
        }
    }
}

} // verus!
