//! The public session operations: start, push a frame, finish and cancel,
//! over all live sessions, plus the calls the frame writer and the diagnostic
//! reader of each session make.
//!
//! Finishing takes a session out of the live set at once, so a second finish,
//! a later push or a cancel no longer finds it; the session stays reachable by
//! its own writer until the writer has drained the queue and `complete` hands
//! back the outcome.
use vstd::prelude::*;
use std::collections::HashMap;
use crate::error::EncodeError;
use crate::registry::Registry;
use crate::session::{
    after_offer,
    after_pull,
    offer_outcome,
    pull_outcome,
    write_failure_text,
    ExitReport,
    Offer,
    PullOutcome,
    Session,
    SessionView,
    WriterAction,
};

verus! {

broadcast use vstd::std_specs::hash::group_hash_axioms;

/// The mathematical state of all sessions.
pub struct EncodersView {
    /// Sessions that accept frames, by identifier.
    pub live: Map<u64, SessionView>,
    /// Finished sessions whose writer is still draining, by identifier.
    pub draining: Map<u64, SessionView>,
    /// The identifier the next started session gets.
    pub next_id: nat,
}

impl EncodersView {
    pub open spec fn wf(self) -> bool {
        &&& self.next_id <= u64::MAX
        &&& forall|id: u64| #[trigger]
            self.live.contains_key(id) ==> self.live[id].wf() && id < self.next_id
        &&& forall|id: u64| #[trigger]
            self.draining.contains_key(id) ==> self.draining[id].wf() && self.draining[id].closed
                && id < self.next_id && !self.live.contains_key(id)
    }
}

/// The state after pushing `frame` to session `id`.
pub open spec fn pushed(v: EncodersView, id: u64, frame: Seq<u8>) -> EncodersView {
    if v.live.contains_key(id) {
        EncodersView { live: v.live.insert(id, after_offer(v.live[id], frame)), ..v }
    } else {
        v
    }
}

/// The state after the writer of session `id` takes its next action.
pub open spec fn pulled(v: EncodersView, id: u64) -> EncodersView {
    if v.live.contains_key(id) {
        EncodersView { live: v.live.insert(id, after_pull(v.live[id])), ..v }
    } else if v.draining.contains_key(id) {
        EncodersView { draining: v.draining.insert(id, after_pull(v.draining[id])), ..v }
    } else {
        v
    }
}

/// The writer's next action in session `id`; a writer whose session is gone
/// stops.
pub open spec fn pull_of(v: EncodersView, id: u64) -> PullOutcome {
    if v.live.contains_key(id) {
        pull_outcome(v.live[id])
    } else if v.draining.contains_key(id) {
        pull_outcome(v.draining[id])
    } else {
        PullOutcome::Stop
    }
}

/// The state after finishing session `id`: out of the live set, its stream
/// ended, draining.
pub open spec fn finishing(v: EncodersView, id: u64) -> EncodersView {
    if v.live.contains_key(id) {
        EncodersView {
            live: v.live.remove(id),
            draining: v.draining.insert(id, SessionView { closed: true, ..v.live[id] }),
            ..v
        }
    } else {
        v
    }
}

/// What finishing session `id` answers: only a live session can be finished.
pub open spec fn finish_outcome(v: EncodersView, id: u64) -> Result<(), EncodeError> {
    if v.live.contains_key(id) {
        Ok(())
    } else {
        Err(EncodeError::SessionNotFound(id))
    }
}

/// The state after cancelling session `id`: gone, with its queued frames.
pub open spec fn cancelled(v: EncodersView, id: u64) -> EncodersView {
    EncodersView { live: v.live.remove(id), ..v }
}

/// Changes the session `id`, wherever it is, by `f`.
pub open spec fn updated(
    v: EncodersView,
    id: u64,
    f: spec_fn(SessionView) -> SessionView,
) -> EncodersView {
    if v.live.contains_key(id) {
        EncodersView { live: v.live.insert(id, f(v.live[id])), ..v }
    } else if v.draining.contains_key(id) {
        EncodersView { draining: v.draining.insert(id, f(v.draining[id])), ..v }
    } else {
        v
    }
}

pub open spec fn views_of(m: Map<u64, Session>) -> Map<u64, SessionView> {
    m.map_values(|s: Session| s@)
}

proof fn lemma_views_insert(m: Map<u64, Session>, id: u64, s: Session)
    ensures
        views_of(m.insert(id, s)) == views_of(m).insert(id, s@),
{
    assert(views_of(m.insert(id, s)) =~= views_of(m).insert(id, s@));
}

proof fn lemma_views_remove(m: Map<u64, Session>, id: u64)
    ensures
        views_of(m.remove(id)) == views_of(m).remove(id),
{
    assert(views_of(m.remove(id)) =~= views_of(m).remove(id));
}

proof fn lemma_views_index(m: Map<u64, Session>, id: u64)
    requires
        m.contains_key(id),
    ensures
        views_of(m).contains_key(id),
        views_of(m)[id] == m[id]@,
{
}

/// All streaming encode sessions of a process.
pub struct Encoders {
    live: Registry<Session>,
    draining: HashMap<u64, Session>,
}

impl View for Encoders {
    type V = EncodersView;

    closed spec fn view(&self) -> EncodersView {
        EncodersView {
            live: views_of(self.live@.sessions),
            draining: views_of(self.draining@),
            next_id: self.live@.next_id,
        }
    }
}

impl Encoders {
    /// Every value that `new` makes is well formed, and every method keeps it
    /// so.
    pub closed spec fn wf(&self) -> bool {
        self@.wf() && self.live.wf()
    }

    /// No sessions yet.
    pub fn new() -> (r: Encoders)
        ensures
            r.wf(),
            r@.live == Map::<u64, SessionView>::empty(),
            r@.draining == Map::<u64, SessionView>::empty(),
            r@.next_id == 0,
    {
        let r = Encoders { live: Registry::new(), draining: HashMap::new() };
        assert(r@.live =~= Map::<u64, SessionView>::empty());
        assert(r@.draining =~= Map::<u64, SessionView>::empty());
        r
    }

    /// Registers a new session and returns its identifier, which no session
    /// had before.
    pub fn start(&mut self, session: Session) -> (r: Result<u64, EncodeError>)
        requires
            old(self).wf(),
            session.wf(),
        ensures
            final(self).wf(),
            old(self)@.next_id < u64::MAX ==> (r matches Ok(id) && id == old(self)@.next_id
                && !old(self)@.live.contains_key(id) && !old(self)@.draining.contains_key(id)
                && final(self)@ == (EncodersView {
                live: old(self)@.live.insert(id, session@),
                next_id: (id + 1) as nat,
                ..old(self)@
            })),
            old(self)@.next_id == u64::MAX ==> r == Err::<u64, EncodeError>(
                EncodeError::IdentifiersExhausted,
            ) && final(self)@ == old(self)@,
    {
        let ghost s = session;
        let r = self.live.insert(session);
        proof {
            if r is Ok {
                lemma_views_insert(old(self).live@.sessions, r->Ok_0, s);
            }
        }
        r
    }

    /// Offers a frame to session `id`; an unknown or finished session is
    /// `SessionNotFound`, otherwise the session answers as `offer_frame`
    /// says.
    pub fn push_frame(&mut self, id: u64, frame: Vec<u8>) -> (r: Result<Offer, EncodeError>)
        requires
            old(self).wf(),
        ensures
            final(self).wf(),
            final(self)@ == pushed(old(self)@, id, frame@),
            !old(self)@.live.contains_key(id) ==> r == Err::<Offer, EncodeError>(
                EncodeError::SessionNotFound(id),
            ),
            old(self)@.live.contains_key(id) ==> (r matches Ok(o) && o.outcome() == offer_outcome(
                old(self)@.live[id],
                frame@,
            )),
    {
        if !self.live.contains(id) {
            return Err(EncodeError::SessionNotFound(id));
        }
        let ghost f = frame@;
        let mut s = match self.live.remove(id) {
            Ok(s) => s,
            Err(e) => {
                return Err(e);
            },
        };
        proof {
            lemma_views_remove(old(self).live@.sessions, id);
            lemma_views_index(old(self).live@.sessions, id);
        }
        let o = s.offer_frame(frame);
        self.live.reinsert(id, s);
        proof {
            lemma_views_insert(old(self).live@.sessions.remove(id), id, s);
            assert(self@.live =~= old(self)@.live.insert(id, after_offer(old(self)@.live[id], f)));
        }
        Ok(o)
    }

    /// The next action of the frame writer of session `id`.
    pub fn next_for_writer(&mut self, id: u64) -> (r: WriterAction)
        requires
            old(self).wf(),
        ensures
            final(self).wf(),
            r.outcome() == pull_of(old(self)@, id),
            final(self)@ == pulled(old(self)@, id),
    {
        if self.live.contains(id) {
            let mut s = match self.live.remove(id) {
                Ok(s) => s,
                Err(_) => {
                    return WriterAction::Stop;
                },
            };
            proof {
                lemma_views_remove(old(self).live@.sessions, id);
                lemma_views_index(old(self).live@.sessions, id);
            }
            let a = s.next_for_writer();
            self.live.reinsert(id, s);
            proof {
                lemma_views_insert(old(self).live@.sessions.remove(id), id, s);
                assert(self@.live =~= old(self)@.live.insert(id, after_pull(old(self)@.live[id])));
            }
            a
        } else {
            match self.draining.remove(&id) {
                Some(mut s) => {
                    proof {
                        lemma_views_index(old(self).draining@, id);
                    }
                    let a = s.next_for_writer();
                    self.draining.insert(id, s);
                    proof {
                        lemma_views_insert(old(self).draining@.remove(id), id, s);
                        assert(self@.draining =~= old(self)@.draining.insert(
                            id,
                            after_pull(old(self)@.draining[id]),
                        ));
                    }
                    a
                },
                None => {
                    assert(self.draining@ =~= old(self).draining@);
                    WriterAction::Stop
                },
            }
        }
    }

    /// Records that the writer of session `id` failed to write; returns
    /// whether the session was found.
    pub fn writer_failed(&mut self, id: u64, detail: &str) -> (r: bool)
        requires
            old(self).wf(),
        ensures
            final(self).wf(),
            r == (old(self)@.live.contains_key(id) || old(self)@.draining.contains_key(id)),
            final(self)@ == updated(
                old(self)@,
                id,
                |s: SessionView|
                    SessionView {
                        queue: Seq::empty(),
                        writer: crate::session::WriterState::Failed,
                        failure: Some(write_failure_text(detail@)),
                        last_error: Some(write_failure_text(detail@)),
                        ..s
                    },
            ),
    {
        if self.live.contains(id) {
            let mut s = match self.live.remove(id) {
                Ok(s) => s,
                Err(_) => {
                    return false;
                },
            };
            proof {
                lemma_views_remove(old(self).live@.sessions, id);
                lemma_views_index(old(self).live@.sessions, id);
                assert(s@ == old(self)@.live[id]);
                assert(old(self)@.live[id].wf());
            }
            s.writer_failed(detail);
            self.live.reinsert(id, s);
            proof {
                lemma_views_insert(old(self).live@.sessions.remove(id), id, s);
                assert(self@.live =~= old(self)@.live.insert(id, s@));
            }
            true
        } else {
            match self.draining.remove(&id) {
                Some(mut s) => {
                    proof {
                        lemma_views_index(old(self).draining@, id);
                    }
                    s.writer_failed(detail);
                    self.draining.insert(id, s);
                    proof {
                        lemma_views_insert(old(self).draining@.remove(id), id, s);
                        assert(self@.draining =~= old(self)@.draining.insert(id, s@));
                    }
                    true
                },
                None => {
                    assert(self.draining@ =~= old(self).draining@);
                    false
                },
            }
        }
    }

    /// Records a diagnostic line of the encoder of session `id`; returns
    /// whether the session was found.
    pub fn record_diagnostic(&mut self, id: u64, line: String) -> (r: bool)
        requires
            old(self).wf(),
        ensures
            final(self).wf(),
            r == (old(self)@.live.contains_key(id) || old(self)@.draining.contains_key(id)),
            final(self)@ == updated(
                old(self)@,
                id,
                |s: SessionView| SessionView { last_error: Some(line@), ..s },
            ),
    {
        let ghost text = line@;
        if self.live.contains(id) {
            let mut s = match self.live.remove(id) {
                Ok(s) => s,
                Err(_) => {
                    return false;
                },
            };
            proof {
                lemma_views_remove(old(self).live@.sessions, id);
                lemma_views_index(old(self).live@.sessions, id);
                assert(s@ == old(self)@.live[id]);
                assert(old(self)@.live[id].wf());
            }
            s.record_diagnostic(line);
            self.live.reinsert(id, s);
            proof {
                lemma_views_insert(old(self).live@.sessions.remove(id), id, s);
                assert(self@.live =~= old(self)@.live.insert(id, s@));
            }
            true
        } else {
            match self.draining.remove(&id) {
                Some(mut s) => {
                    proof {
                        lemma_views_index(old(self).draining@, id);
                    }
                    s.record_diagnostic(line);
                    self.draining.insert(id, s);
                    proof {
                        lemma_views_insert(old(self).draining@.remove(id), id, s);
                        assert(self@.draining =~= old(self)@.draining.insert(id, s@));
                    }
                    true
                },
                None => {
                    assert(self.draining@ =~= old(self).draining@);
                    false
                },
            }
        }
    }

    /// Finishes session `id`: takes it out of the live set and ends its
    /// stream, so its writer drains the queue and stops. A session that is
    /// not live is `SessionNotFound`.
    pub fn finish(&mut self, id: u64) -> (r: Result<(), EncodeError>)
        requires
            old(self).wf(),
        ensures
            final(self).wf(),
            final(self)@ == finishing(old(self)@, id),
            r == finish_outcome(old(self)@, id),
    {
        if !self.live.contains(id) {
            return Err(EncodeError::SessionNotFound(id));
        }
        let mut s = match self.live.remove(id) {
            Ok(s) => s,
            Err(e) => {
                return Err(e);
            },
        };
        proof {
            lemma_views_remove(old(self).live@.sessions, id);
            lemma_views_index(old(self).live@.sessions, id);
        }
        s.close();
        self.draining.insert(id, s);
        proof {
            lemma_views_insert(old(self).draining@, id, s);
        }
        Ok(())
    }

    /// Completes a finished session once its writer has been joined and its
    /// encoder has exited, and says how it ended (see `Session::conclude`).
    pub fn complete(&mut self, id: u64, writer_joined: bool, exit: ExitReport, log_path: String) -> (r:
        Result<(), EncodeError>)
        requires
            old(self).wf(),
        ensures
            final(self).wf(),
            final(self)@ == (EncodersView { draining: old(self)@.draining.remove(id), ..old(self)@ }),
            !old(self)@.draining.contains_key(id) ==> r == Err::<(), EncodeError>(
                EncodeError::SessionNotFound(id),
            ),
            old(self)@.draining.contains_key(id) && !writer_joined ==> r == Err::<(), EncodeError>(
                EncodeError::WorkerPanicked,
            ),
            old(self)@.draining.contains_key(id) && writer_joined && old(self)@.draining[id].writer
                == crate::session::WriterState::Failed ==> (r matches Err(
                EncodeError::WriterFailed(m),
            ) && old(self)@.draining[id].failure == Some(m@)),
            old(self)@.draining.contains_key(id) && writer_joined && old(self)@.draining[id].writer
                != crate::session::WriterState::Failed ==> match exit {
                ExitReport::WaitFailed(m) => r == Err::<(), EncodeError>(EncodeError::WaitFailed(m)),
                ExitReport::Exited { success: false, status } => r matches Err(
                    EncodeError::EncoderExitFailure { status: st, last_error: le, log_path: lp },
                ) && st == status && crate::session::opt_text(le) == old(self)@.draining[id].last_error
                    && lp == log_path,
                ExitReport::Exited { success: true, .. } => r == Ok::<(), EncodeError>(()),
            },
    {
        let taken = self.draining.remove(&id);
        proof {
            lemma_views_remove(old(self).draining@, id);
            if old(self).draining@.contains_key(id) {
                lemma_views_index(old(self).draining@, id);
            }
            assert forall|k: u64| #[trigger] self@.draining.contains_key(k) implies self@.draining[
                k
            ].wf() && self@.draining[k].closed && k < self@.next_id && !self@.live.contains_key(
                k,
            ) by {
                assert(old(self)@.draining.contains_key(k));
            }
        }
        match taken {
            Some(s) => s.conclude(writer_joined, exit, log_path),
            None => Err(EncodeError::SessionNotFound(id)),
        }
    }

    /// Cancels session `id` if it is live, dropping it with its queued
    /// frames; returns whether it was. Never fails.
    pub fn cancel(&mut self, id: u64) -> (r: bool)
        requires
            old(self).wf(),
        ensures
            final(self).wf(),
            final(self)@ == cancelled(old(self)@, id),
            r == old(self)@.live.contains_key(id),
    {
        let taken = self.live.discard(id);
        proof {
            lemma_views_remove(old(self).live@.sessions, id);
            assert forall|k: u64| #[trigger] self@.live.contains_key(k) implies self@.live[k].wf()
                && k < self@.next_id by {
                assert(old(self)@.live.contains_key(k));
            }
            assert forall|k: u64| #[trigger] self@.draining.contains_key(k) implies self@.draining[
                k
            ].wf() && self@.draining[k].closed && k < self@.next_id && !self@.live.contains_key(
                k,
            ) by {
                assert(old(self)@.draining.contains_key(k));
            }
        }
        taken.is_some()
    }

    /// Whether session `id` is live.
    pub fn is_live(&self, id: u64) -> (r: bool)
        ensures
            r == self@.live.contains_key(id),
    {
        self.live.contains(id)
    }
}

} // verus!
