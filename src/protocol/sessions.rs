//! Sessions between connections.
//!
//! A live connection owns its session's [`ResumeState`] outright. When the
//! transport drops, the state is parked here under the session's id for a
//! grace period. A new connection of the same identity can reclaim it with a
//! resume request; once the grace period has elapsed the session is gone for
//! good. Since a session is either owned by one connection or parked here,
//! two connections never write to the same replay log.

use super::resume::{
    entries_model, fresh_model, LogEntry, ResumeState, SequenceError, DEFAULT_REPLAY_CAPACITY,
};
use vstd::prelude::*;

verus! {

/// A disconnected session waiting to be resumed.
pub struct ParkedSession {
    pub session_id: u64,
    /// The identity that owns the session.
    pub owner: i64,
    /// When the transport dropped, in milliseconds.
    pub parked_at: u64,
    pub state: ResumeState,
}

/// At time `now` the grace period of `p` has elapsed. A clock reading
/// earlier than the parking time counts as no time elapsed.
pub open spec fn expired_at(p: ParkedSession, now: u64, grace_ms: u64) -> bool {
    now >= p.parked_at && now - p.parked_at >= grace_ms
}

/// Why a session could not be resumed.
#[derive(Debug, Clone, Copy, PartialEq, Eq, Structural)]
pub enum Unresumable {
    /// No parked session has that id (never existed, already discarded, or
    /// still held by a live connection).
    UnknownSession,
    /// The session belongs to another identity.
    ForeignSession,
    /// The grace period had elapsed; the session has been discarded.
    Expired,
}

/// Outcome of a resume request for a parked session.
pub enum Resumption {
    /// The session is back: send `replay` again, then carry on.
    Replayed { session_id: u64, state: ResumeState, replay: Vec<LogEntry> },
    /// The session is back but the log cannot bridge the gap: send a full
    /// snapshot instead of a replay.
    SnapshotRequired { session_id: u64, state: ResumeState, reason: SequenceError },
    /// Nothing to resume: start a fresh session.
    Refused { reason: Unresumable },
}

/// What the server does with an identification.
pub enum Identified {
    /// A new session. `refused` says why a requested resumption did not
    /// happen (`None` when none was asked for); either way the client needs a
    /// full snapshot.
    Fresh { session_id: u64, state: ResumeState, refused: Option<Unresumable> },
    /// The session was resumed: send `replay` again.
    Resumed { session_id: u64, state: ResumeState, replay: Vec<LogEntry> },
    /// The session was resumed but needs a full snapshot.
    Resync { session_id: u64, state: ResumeState, reason: SequenceError },
}

/// Position of the session `id` in `s`, if any.
pub open spec fn position_from(s: Seq<ParkedSession>, id: u64, i: int) -> Option<int>
    decreases s.len() - i,
{
    if i < 0 || i >= s.len() {
        None
    } else if s[i].session_id == id {
        Some(i)
    } else {
        position_from(s, id, i + 1)
    }
}

/// Position of the session `id` in `s`, if any.
pub open spec fn position(s: Seq<ParkedSession>, id: u64) -> Option<int> {
    position_from(s, id, 0)
}

/// Where `position_from` lands, it finds the session; where it finds none,
/// there is none.
pub proof fn lemma_position_from(s: Seq<ParkedSession>, id: u64, i: int)
    requires
        0 <= i <= s.len(),
    ensures
        match position_from(s, id, i) {
            Some(p) => i <= p < s.len() && s[p].session_id == id,
            None => forall|j: int| i <= j < s.len() ==> s[j].session_id != id,
        },
    decreases s.len() - i,
{
    if i < s.len() && s[i].session_id != id {
        lemma_position_from(s, id, i + 1);
    }
}

/// Keeping some of a set of parked sessions keeps their ids unique, below
/// `next`, and their states well formed.
proof fn lemma_kept_wf(s: Seq<ParkedSession>, keep: spec_fn(ParkedSession) -> bool, next: u64)
    requires
        forall|i: int, j: int| 0 <= i < j < s.len() ==> s[i].session_id != s[j].session_id,
        forall|i: int| 0 <= i < s.len() ==> (#[trigger] s[i]).session_id < next && s[i].state.wf(),
    ensures
        forall|i: int, j: int|
            0 <= i < j < s.filter(keep).len() ==> s.filter(keep)[i].session_id != s.filter(
                keep,
            )[j].session_id,
        forall|i: int|
            0 <= i < s.filter(keep).len() ==> (#[trigger] s.filter(keep)[i]).session_id < next
                && s.filter(keep)[i].state.wf(),
    decreases s.len(),
{
    if s.len() > 0 {
        let t = s.drop_last();
        let x = s.last();
        lemma_kept_wf(t, keep, next);
        assert(s =~= t.push(x));
        t.lemma_filter_push(x, keep);
        let f = s.filter(keep);
        let g = t.filter(keep);
        if keep(x) {
            assert forall|i: int, j: int| 0 <= i < j < f.len() implies f[i].session_id
                != f[j].session_id by {
                if j == f.len() - 1 {
                    assert(g.contains(f[i]));
                    t.lemma_filter_contains_rev(keep, f[i]);
                    let b = choose|b: int| 0 <= b < t.len() && t[b] == f[i];
                    assert(s[b] == t[b]);
                } else {
                    assert(f[i] == g[i] && f[j] == g[j]);
                }
            }
            assert forall|i: int| 0 <= i < f.len() implies (#[trigger] f[i]).session_id < next
                && f[i].state.wf() by {
                if i < g.len() {
                    assert(f[i] == g[i]);
                }
            }
        }
    }
}

/// Parked sessions, keyed by session id.
pub struct SessionRegistry {
    parked: Vec<ParkedSession>,
    next_session_id: u64,
    grace_ms: u64,
}

impl SessionRegistry {
    /// The parked sessions.
    pub closed spec fn sessions(&self) -> Seq<ParkedSession> {
        self.parked@
    }

    /// The id the next fresh session gets.
    pub closed spec fn next_id(&self) -> u64 {
        self.next_session_id
    }

    /// How long a parked session can be resumed, in milliseconds.
    pub closed spec fn grace(&self) -> u64 {
        self.grace_ms
    }

    /// Ids are unique and below the next id, and each parked state keeps its
    /// invariant.
    pub open spec fn wf(&self) -> bool {
        &&& forall|i: int, j: int|
            0 <= i < j < self.sessions().len() ==> self.sessions()[i].session_id
                != self.sessions()[j].session_id
        &&& forall|i: int|
            0 <= i < self.sessions().len() ==> (#[trigger] self.sessions()[i]).session_id
                < self.next_id()
        &&& forall|i: int| 0 <= i < self.sessions().len() ==> (#[trigger] self.sessions()[i]).state.wf()
    }

    /// An empty registry whose sessions can be resumed for `grace_ms`
    /// milliseconds after their transport drops.
    pub fn new(grace_ms: u64) -> (r: Self)
        ensures
            r.wf(),
            r.sessions() == Seq::<ParkedSession>::empty(),
            r.next_id() == 1,
            r.grace() == grace_ms,
    {
        let r = SessionRegistry { parked: Vec::new(), next_session_id: 1, grace_ms };
        assert(r.sessions() =~= Seq::<ParkedSession>::empty());
        r
    }

    /// Number of parked sessions.
    pub fn len(&self) -> (r: usize)
        ensures
            r == self.sessions().len(),
    {
        self.parked.len()
    }

    /// Position of the parked session `id`.
    fn find(&self, id: u64) -> (r: Option<usize>)
        ensures
            match r {
                Some(i) => i < self.sessions().len() && self.sessions()[i as int].session_id == id
                    && position(self.sessions(), id) == Some(i as int),
                None => position(self.sessions(), id) is None,
            },
    {
        let mut i: usize = 0;
        while i < self.parked.len()
            invariant
                i <= self.parked@.len(),
                position_from(self.parked@, id, 0) == position_from(self.parked@, id, i as int),
            decreases self.parked@.len() - i,
        {
            if self.parked[i].session_id == id {
                return Some(i);
            }
            i = i + 1;
        }
        None
    }

    /// Whether session `id` is parked here.
    pub fn is_parked(&self, id: u64) -> (r: bool)
        ensures
            r == position(self.sessions(), id) is Some,
    {
        self.find(id).is_some()
    }

    /// Allocate a fresh session: a new id and a state with nothing sent.
    pub fn open_session(&mut self) -> (r: (u64, ResumeState))
        requires
            old(self).wf(),
            old(self).next_id() < u64::MAX,
        ensures
            final(self).wf(),
            r.0 == old(self).next_id(),
            final(self).next_id() == old(self).next_id() + 1,
            final(self).sessions() == old(self).sessions(),
            final(self).grace() == old(self).grace(),
            r.1.wf(),
            r.1@ == fresh_model(DEFAULT_REPLAY_CAPACITY as nat),
    {
        let id = self.next_session_id;
        self.next_session_id = id + 1;
        assert forall|i: int| 0 <= i < self.sessions().len() implies (#[trigger] self.sessions()[i]).session_id
            < self.next_id() by {
            assert(old(self).sessions()[i].session_id < id);
        }
        (id, ResumeState::fresh())
    }

    /// Park session `id` of `owner`, whose transport dropped at `now`. A
    /// session parked under the same id before is replaced.
    pub fn park(&mut self, id: u64, owner: i64, state: ResumeState, now: u64)
        requires
            old(self).wf(),
            state.wf(),
            id < old(self).next_id(),
        ensures
            final(self).wf(),
            final(self).next_id() == old(self).next_id(),
            final(self).grace() == old(self).grace(),
            match position(old(self).sessions(), id) {
                Some(i) => final(self).sessions() == old(self).sessions().remove(i).push(
                    ParkedSession { session_id: id, owner, parked_at: now, state },
                ),
                None => final(self).sessions() == old(self).sessions().push(
                    ParkedSession { session_id: id, owner, parked_at: now, state },
                ),
            },
    {
        let ghost s0 = self.parked@;
        match self.find(id) {
            Some(i) => {
                proof {
                    lemma_position_from(s0, id, 0);
                }
                let _ = self.parked.remove(i);
                assert forall|j: int| 0 <= j < self.parked@.len() implies self.parked@[j].session_id != id by {
                    if j < i {
                        assert(self.parked@[j] == s0[j]);
                    } else {
                        assert(self.parked@[j] == s0[j + 1]);
                    }
                }
            },
            None => {
                proof {
                    lemma_position_from(s0, id, 0);
                }
            },
        }
        let ghost s1 = self.parked@;
        self.parked.push(ParkedSession { session_id: id, owner, parked_at: now, state });
        proof {
            assert forall|i: int, j: int| 0 <= i < j < self.parked@.len() implies self.parked@[i].session_id
                != self.parked@[j].session_id by {
                if j < s1.len() {
                    assert(self.parked@[i] == s1[i] && self.parked@[j] == s1[j]);
                    if s1.len() < s0.len() {
                        let k = position(s0, id)->0;
                        let ii = if i < k { i } else { i + 1 };
                        let jj = if j < k { j } else { j + 1 };
                        assert(s1[i] == s0[ii] && s1[j] == s0[jj]);
                    }
                } else {
                    assert(self.parked@[i] == s1[i]);
                    if s1.len() == s0.len() {
                        lemma_position_from(s0, id, 0);
                    }
                }
            }
            assert forall|i: int| 0 <= i < self.parked@.len() implies (#[trigger] self.parked@[i]).session_id
                < self.next_session_id && self.parked@[i].state.wf() by {
                if i < s1.len() {
                    assert(self.parked@[i] == s1[i]);
                    if s1.len() < s0.len() {
                        let k = position(s0, id)->0;
                        let ii = if i < k { i } else { i + 1 };
                        assert(s1[i] == s0[ii]);
                    }
                }
            }
        }
    }

    /// Answer a request of `owner` to resume session `id` from sequence
    /// number `k` at time `now`. An unknown or foreign session is left as it
    /// is; an expired one is discarded; otherwise the session leaves the
    /// registry and its state is handed back, with the replay when the log
    /// can serve it.
    pub fn reclaim(&mut self, id: u64, owner: i64, k: u64, now: u64) -> (r: Resumption)
        requires
            old(self).wf(),
        ensures
            final(self).wf(),
            final(self).next_id() == old(self).next_id(),
            final(self).grace() == old(self).grace(),
            match position(old(self).sessions(), id) {
                None => r == (Resumption::Refused { reason: Unresumable::UnknownSession })
                    && final(self).sessions() == old(self).sessions(),
                Some(i) => {
                    let p = old(self).sessions()[i];
                    if p.owner != owner {
                        &&& r == (Resumption::Refused { reason: Unresumable::ForeignSession })
                        &&& final(self).sessions() == old(self).sessions()
                    } else if expired_at(p, now, old(self).grace()) {
                        &&& r == (Resumption::Refused { reason: Unresumable::Expired })
                        &&& final(self).sessions() == old(self).sessions().remove(i)
                    } else {
                        &&& final(self).sessions() == old(self).sessions().remove(i)
                        &&& match r {
                            Resumption::Replayed { session_id, state, replay } => {
                                &&& p.state@.can_resume_from(k)
                                &&& session_id == id
                                &&& state.wf()
                                &&& state@ == p.state@.after_ack(k)
                                &&& entries_model(replay@) == state@.log
                            },
                            Resumption::SnapshotRequired { session_id, state, reason } => {
                                &&& !p.state@.can_resume_from(k)
                                &&& session_id == id
                                &&& state.wf()
                                &&& state@ == p.state@
                                &&& (reason == SequenceError::AheadOfSent <==> k
                                    > p.state@.last_sent)
                            },
                            Resumption::Refused { .. } => false,
                        }
                    }
                },
            },
    {
        let ghost s0 = self.parked@;
        let i = match self.find(id) {
            None => {
                return Resumption::Refused { reason: Unresumable::UnknownSession };
            },
            Some(i) => i,
        };
        if self.parked[i].owner != owner {
            return Resumption::Refused { reason: Unresumable::ForeignSession };
        }
        let expired = now >= self.parked[i].parked_at && now - self.parked[i].parked_at
            >= self.grace_ms;
        let p = self.parked.remove(i);
        proof {
            assert forall|a: int, b: int| 0 <= a < b < self.parked@.len() implies self.parked@[a].session_id
                != self.parked@[b].session_id by {
                let aa = if a < i { a } else { a + 1 };
                let bb = if b < i { b } else { b + 1 };
                assert(self.parked@[a] == s0[aa] && self.parked@[b] == s0[bb]);
            }
            assert forall|a: int| 0 <= a < self.parked@.len() implies (#[trigger] self.parked@[a]).session_id
                < self.next_session_id && self.parked@[a].state.wf() by {
                let aa = if a < i { a } else { a + 1 };
                assert(self.parked@[a] == s0[aa]);
            }
        }
        if expired {
            return Resumption::Refused { reason: Unresumable::Expired };
        }
        let mut state = p.state;
        match state.resume_from(k) {
            Ok(replay) => Resumption::Replayed { session_id: id, state, replay },
            Err(reason) => Resumption::SnapshotRequired { session_id: id, state, reason },
        }
    }

    /// Discard every session whose grace period has elapsed at `now`, and
    /// return the id and owner of each, in registry order, so that their
    /// departure can be announced.
    pub fn expire(&mut self, now: u64) -> (departed: Vec<(u64, i64)>)
        requires
            old(self).wf(),
        ensures
            final(self).wf(),
            final(self).next_id() == old(self).next_id(),
            final(self).grace() == old(self).grace(),
            final(self).sessions() == old(self).sessions().filter(
                |p: ParkedSession| !expired_at(p, now, old(self).grace()),
            ),
            departed@ == old(self).sessions().filter(
                |p: ParkedSession| expired_at(p, now, old(self).grace()),
            ).map_values(|p: ParkedSession| (p.session_id, p.owner)),
    {
        let ghost grace = self.grace_ms;
        let ghost keep = |p: ParkedSession| !expired_at(p, now, grace);
        let ghost gone = |p: ParkedSession| expired_at(p, now, grace);
        let ghost label = |p: ParkedSession| (p.session_id, p.owner);
        let mut rest: Vec<ParkedSession> = Vec::new();
        std::mem::swap(&mut rest, &mut self.parked);
        let ghost s0 = rest@;
        let mut departed: Vec<(u64, i64)> = Vec::new();
        let ghost mut j: int = 0;
        proof {
            assert(s0.take(0) =~= Seq::<ParkedSession>::empty());
            assert(self.parked@ =~= s0.take(0).filter(keep));
            assert(departed@ =~= s0.take(0).filter(gone).map_values(label));
            assert(rest@ =~= s0.skip(0));
        }
        while rest.len() > 0
            invariant
                0 <= j <= s0.len(),
                grace == self.grace_ms,
                s0 == old(self).sessions(),
                self.next_session_id == old(self).next_id(),
                keep == (|p: ParkedSession| !expired_at(p, now, grace)),
                gone == (|p: ParkedSession| expired_at(p, now, grace)),
                label == (|p: ParkedSession| (p.session_id, p.owner)),
                rest@ == s0.skip(j),
                self.parked@ == s0.take(j).filter(keep),
                departed@ == s0.take(j).filter(gone).map_values(label),
            decreases rest@.len(),
        {
            let p = rest.remove(0);
            proof {
                assert(p == s0[j]);
                assert(s0.take(j + 1) =~= s0.take(j).push(p));
                s0.take(j).lemma_filter_push(p, keep);
                s0.take(j).lemma_filter_push(p, gone);
            }
            if now >= p.parked_at && now - p.parked_at >= self.grace_ms {
                assert(gone(p) && !keep(p));
                departed.push((p.session_id, p.owner));
                proof {
                    s0.take(j).filter(gone).lemma_push_map_commute(label, p);
                    assert(label(p) == (p.session_id, p.owner));
                }
            } else {
                assert(!gone(p) && keep(p));
                self.parked.push(p);
            }
            proof {
                j = j + 1;
                assert(rest@ =~= s0.skip(j));
            }
        }
        proof {
            assert(s0.take(j) =~= s0);
            lemma_kept_wf(s0, keep, self.next_session_id);
        }
        departed
    }

    /// Decide what to do with an identification from `owner` at time `now`.
    /// Without a resumption point a fresh session is opened. With one, the
    /// claimed session is reclaimed when it can be; when it cannot, a fresh
    /// session is opened and the reason is reported, so the client learns
    /// explicitly that no resumption happened.
    pub fn identify(&mut self, owner: i64, claimed: Option<u64>, resume_seq: Option<u64>, now: u64) -> (r:
        Identified)
        requires
            old(self).wf(),
            old(self).next_id() < u64::MAX,
        ensures
            final(self).wf(),
            final(self).grace() == old(self).grace(),
            match r {
                Identified::Fresh { session_id, state, refused } => {
                    &&& session_id == old(self).next_id()
                    &&& final(self).next_id() == old(self).next_id() + 1
                    &&& state.wf()
                    &&& state@ == fresh_model(DEFAULT_REPLAY_CAPACITY as nat)
                    &&& (refused is None <==> resume_seq is None)
                },
                Identified::Resumed { session_id, state, replay } => {
                    &&& resume_seq is Some && claimed == Some(session_id)
                    &&& state.wf()
                    &&& entries_model(replay@) == state@.log
                },
                Identified::Resync { session_id, state, .. } => {
                    &&& resume_seq is Some && claimed == Some(session_id)
                    &&& state.wf()
                },
            },
            resume_seq is None ==> r is Fresh && final(self).sessions() == old(self).sessions(),
            resume_seq is Some && claimed is None ==> r == (Identified::Fresh {
                session_id: old(self).next_id(),
                state: r->Fresh_state,
                refused: Some(Unresumable::UnknownSession),
            }),
            match (resume_seq, claimed) {
                (Some(k), Some(id)) => match position(old(self).sessions(), id) {
                    None => {
                        &&& r is Fresh
                        &&& r->Fresh_refused == Some(Unresumable::UnknownSession)
                        &&& final(self).sessions() == old(self).sessions()
                    },
                    Some(i) => {
                        let p = old(self).sessions()[i];
                        if p.owner != owner {
                            &&& r is Fresh
                            &&& r->Fresh_refused == Some(Unresumable::ForeignSession)
                            &&& final(self).sessions() == old(self).sessions()
                        } else if expired_at(p, now, old(self).grace()) {
                            &&& r is Fresh
                            &&& r->Fresh_refused == Some(Unresumable::Expired)
                            &&& final(self).sessions() == old(self).sessions().remove(i)
                        } else if p.state@.can_resume_from(k) {
                            &&& r is Resumed
                            &&& r->Resumed_state@ == p.state@.after_ack(k)
                            &&& final(self).sessions() == old(self).sessions().remove(i)
                        } else {
                            &&& r is Resync
                            &&& r->Resync_state@ == p.state@
                            &&& final(self).sessions() == old(self).sessions().remove(i)
                        }
                    },
                },
                _ => true,
            },
    {
        let k = match resume_seq {
            None => {
                let (session_id, state) = self.open_session();
                return Identified::Fresh { session_id, state, refused: None };
            },
            Some(k) => k,
        };
        let id = match claimed {
            None => {
                let (session_id, state) = self.open_session();
                return Identified::Fresh {
                    session_id,
                    state,
                    refused: Some(Unresumable::UnknownSession),
                };
            },
            Some(id) => id,
        };
        match self.reclaim(id, owner, k, now) {
            Resumption::Replayed { session_id, state, replay } => Identified::Resumed {
                session_id,
                state,
                replay,
            },
            Resumption::SnapshotRequired { session_id, state, reason } => Identified::Resync {
                session_id,
                state,
                reason,
            },
            Resumption::Refused { reason } => {
                let (session_id, state) = self.open_session();
                Identified::Fresh { session_id, state, refused: Some(reason) }
            },
        }
    }
}

} // verus!
