//! Properties of sessions and of the session set that hold for all inputs.
use vstd::prelude::*;
use crate::encoders::{cancelled, finish_outcome, finishing, pushed, EncodersView};
use crate::error::EncodeError;
use crate::session::{
    after_offer,
    after_pull,
    offer_outcome,
    pull_outcome,
    OfferOutcome,
    PullOutcome,
    SessionView,
};

verus! {

/// One event on a session's queue: a producer offers a frame, or the writer
/// takes its next action.
pub enum QueueEvent {
    Offer(Seq<u8>),
    Pull,
}

/// The state after one event, the frames the writer wrote in it, and the
/// frames accepted in it.
pub open spec fn on_event(s: SessionView, e: QueueEvent) -> (SessionView, Seq<Seq<u8>>, Seq<Seq<u8>>) {
    match e {
        QueueEvent::Offer(f) => (
            after_offer(s, f),
            Seq::empty(),
            if offer_outcome(s, f) is Accepted {
                seq![f]
            } else {
                Seq::empty()
            },
        ),
        QueueEvent::Pull => (
            after_pull(s),
            match pull_outcome(s) {
                PullOutcome::Write(f) => seq![f],
                _ => Seq::empty(),
            },
            Seq::empty(),
        ),
    }
}

/// The state after a run of events, with all frames written and all frames
/// accepted along the way, in order.
pub open spec fn run(s: SessionView, events: Seq<QueueEvent>) -> (
    SessionView,
    Seq<Seq<u8>>,
    Seq<Seq<u8>>,
)
    decreases events.len(),
{
    if events.len() == 0 {
        (s, Seq::empty(), Seq::empty())
    } else {
        let (s1, w1, a1) = on_event(s, events[0]);
        let (s2, w2, a2) = run(s1, events.drop_first());
        (s2, w1 + w2, a1 + a2)
    }
}

/// The state after offering each of `frames` in turn, with no writer
/// activity in between.
pub open spec fn offer_each(s: SessionView, frames: Seq<Seq<u8>>) -> SessionView
    decreases frames.len(),
{
    if frames.len() == 0 {
        s
    } else {
        after_offer(offer_each(s, frames.drop_last()), frames.last())
    }
}

/// Frames reach the writer in the order they were accepted, whatever the
/// interleaving of producers and writer: what was queued before, followed by
/// what was accepted, is exactly what was written followed by what is still
/// queued. Nothing is lost, duplicated or reordered.
pub proof fn law_frames_written_in_order(s: SessionView, events: Seq<QueueEvent>)
    ensures
        s.queue + run(s, events).2 == run(s, events).1 + run(s, events).0.queue,
    decreases events.len(),
{
    if events.len() > 0 {
        let (s1, w1, a1) = on_event(s, events[0]);
        let (s2, w2, a2) = run(s1, events.drop_first());
        law_frames_written_in_order(s1, events.drop_first());
        match events[0] {
            QueueEvent::Offer(f) => {
                if offer_outcome(s, f) is Accepted {
                    assert(s.queue + (seq![f] + a2) =~= s1.queue + a2);
                    assert(w1 + w2 =~= w2);
                } else {
                    assert(a1 + a2 =~= a2);
                    assert(w1 + w2 =~= w2);
                }
            },
            QueueEvent::Pull => {
                assert(a1 + a2 =~= a2);
                match pull_outcome(s) {
                    PullOutcome::Write(f) => {
                        assert(s.queue =~= seq![f] + s1.queue);
                        assert(s.queue + a2 =~= seq![f] + (s1.queue + a2));
                        assert((seq![f] + w2) + s2.queue =~= seq![f] + (w2 + s2.queue));
                    },
                    _ => {
                        assert(w1 + w2 =~= w2);
                    },
                }
            },
        }
    } else {
        assert(s.queue + Seq::<Seq<u8>>::empty() =~= Seq::<Seq<u8>>::empty() + s.queue);
    }
}

/// Over any run of events, the frame counter grows by exactly the number of
/// frames accepted, and the frame size, the declared total and the queue
/// capacity stay as they were.
pub proof fn law_counter_counts_accepted(s: SessionView, events: Seq<QueueEvent>)
    ensures
        run(s, events).0.accepted == s.accepted + run(s, events).2.len(),
        run(s, events).0.expected == s.expected,
        run(s, events).0.total == s.total,
        run(s, events).0.capacity == s.capacity,
    decreases events.len(),
{
    if events.len() > 0 {
        let (s1, w1, a1) = on_event(s, events[0]);
        law_counter_counts_accepted(s1, events.drop_first());
    }
}

/// A frame of exactly `width * height * 4` bytes offered to an open session
/// with room in its queue is accepted, and the progress it returns counts
/// it: after `n` accepted frames, the next one reports `n + 1` of the
/// declared total.
pub proof fn law_valid_frame_is_counted(s: SessionView, events: Seq<QueueEvent>, frame: Seq<u8>)
    requires
        s.accepted == 0,
        frame.len() == s.expected,
        run(s, events).0.open(),
        run(s, events).0.queue.len() < s.capacity,
        run(s, events).2.len() < u64::MAX,
    ensures
        offer_outcome(run(s, events).0, frame) == (OfferOutcome::Accepted {
            frames: run(s, events).2.len() + 1,
            total: s.total,
        }),
        after_offer(run(s, events).0, frame).accepted == run(s, events).2.len() + 1,
{
    law_counter_counts_accepted(s, events);
}

/// A frame of any other length is refused with the expected and the actual
/// length, and the session, its counter included, is left as it was.
pub proof fn law_wrong_length_changes_nothing(s: SessionView, frame: Seq<u8>)
    requires
        frame.len() != s.expected,
    ensures
        offer_outcome(s, frame) == (OfferOutcome::Mismatch {
            expected: s.expected,
            actual: frame.len(),
        }),
        after_offer(s, frame) == s,
{
}

/// A frame that finds the queue full is handed back and the session is left
/// as it was: the queue never grows past its capacity and drops nothing.
pub proof fn law_full_queue_holds_back(s: SessionView, frame: Seq<u8>)
    requires
        s.open(),
        frame.len() == s.expected,
        s.queue.len() >= s.capacity,
    ensures
        offer_outcome(s, frame) == OfferOutcome::Full(frame),
        after_offer(s, frame) == s,
{
}

proof fn lemma_offer_each_fills(s: SessionView, frames: Seq<Seq<u8>>)
    requires
        s.open(),
        s.queue.len() + frames.len() <= s.capacity,
        s.accepted + frames.len() <= u64::MAX,
        forall|i: int| 0 <= i < frames.len() ==> (#[trigger] frames[i]).len() == s.expected,
    ensures
        offer_each(s, frames) == (SessionView {
            queue: s.queue + frames,
            accepted: s.accepted + frames.len(),
            ..s
        }),
    decreases frames.len(),
{
    if frames.len() == 0 {
        assert(s.queue + frames =~= s.queue);
    } else {
        let init = frames.drop_last();
        assert(forall|i: int| 0 <= i < init.len() ==> init[i] == frames[i]);
        lemma_offer_each_fills(s, init);
        assert(frames.last() == frames[frames.len() - 1]);
        assert((s.queue + init).push(frames.last()) =~= s.queue + frames);
    }
}

/// With the writer not taking frames, an open session with an empty queue
/// accepts exactly as many frames as its queue holds, in order; the next
/// frame is handed back, so its producer waits rather than the queue growing
/// or a frame being lost. Once the writer takes a frame, that frame fits.
pub proof fn law_backpressure_at_capacity(s: SessionView, frames: Seq<Seq<u8>>, next: Seq<u8>)
    requires
        s.wf(),
        s.open(),
        s.queue.len() == 0,
        frames.len() == s.capacity,
        s.accepted + s.capacity < u64::MAX,
        forall|i: int| 0 <= i < frames.len() ==> (#[trigger] frames[i]).len() == s.expected,
        next.len() == s.expected,
    ensures
        offer_each(s, frames).queue == frames,
        offer_each(s, frames).accepted == s.accepted + s.capacity,
        offer_outcome(offer_each(s, frames), next) == OfferOutcome::Full(next),
        after_offer(offer_each(s, frames), next) == offer_each(s, frames),
        pull_outcome(offer_each(s, frames)) == PullOutcome::Write(frames[0]),
        offer_outcome(after_pull(offer_each(s, frames)), next) is Accepted,
{
    lemma_offer_each_fills(s, frames);
    assert(s.queue + frames =~= frames);
}

/// Once a session is finished or cancelled it is no longer live, so a second
/// finish finds nothing (`SessionNotFound`) and changes nothing, and so does
/// a push.
pub proof fn law_finish_only_once(v: EncodersView, id: u64, frame: Seq<u8>)
    ensures
        finish_outcome(finishing(v, id), id) == Err::<(), EncodeError>(
            EncodeError::SessionNotFound(id),
        ),
        finish_outcome(cancelled(v, id), id) == Err::<(), EncodeError>(
            EncodeError::SessionNotFound(id),
        ),
        !finishing(v, id).live.contains_key(id),
        !cancelled(v, id).live.contains_key(id),
        finishing(finishing(v, id), id) == finishing(v, id),
        finishing(cancelled(v, id), id) == cancelled(v, id),
        pushed(finishing(v, id), id, frame) == finishing(v, id),
        pushed(cancelled(v, id), id, frame) == cancelled(v, id),
{
}

/// Cancelling twice is the same as cancelling once, and cancelling a
/// finished session changes nothing; cancel has no failure.
pub proof fn law_cancel_idempotent(v: EncodersView, id: u64)
    ensures
        cancelled(cancelled(v, id), id) == cancelled(v, id),
        cancelled(finishing(v, id), id) == finishing(v, id),
{
    assert(cancelled(cancelled(v, id), id).live =~= cancelled(v, id).live);
    if v.live.contains_key(id) {
        assert(cancelled(finishing(v, id), id).live =~= finishing(v, id).live);
    } else {
        assert(cancelled(v, id).live =~= v.live);
    }
}

} // verus!
