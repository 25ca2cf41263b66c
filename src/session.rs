//! One streaming encode session: the bounded frame queue between the producer
//! and the frame writer, the count of accepted frames, the writer's state and
//! the last diagnostic line of the encoder.
//!
//! The session decides; the caller acts. A producer offers a frame and is told
//! whether it was accepted, must wait for room, or was refused. The frame
//! writer asks for its next action and reports a failed write. The caller
//! blocks on a full or empty queue and performs the actual writes.
use vstd::prelude::*;
use std::collections::VecDeque;
use crate::error::EncodeError;

verus! {

/// How many frames a session buffers before producers must wait.
pub const QUEUE_CAPACITY: usize = 60;

/// Frames accepted so far against the declared total; the fraction
/// `frames / total` is the progress to report.
#[derive(Clone, Copy, Debug, PartialEq, Eq, Structural)]
pub struct Progress {
    pub frames: u64,
    pub total: u32,
}

/// The frame writer's state.
#[derive(Clone, Copy, Debug, PartialEq, Eq, Structural)]
pub enum WriterState {
    /// Taking frames from the queue.
    Active,
    /// Reached the end of the stream and flushed.
    Done,
    /// A write failed; no further frame is taken.
    Failed,
}

/// The answer to a producer that offers a frame.
#[derive(Debug)]
pub enum Offer {
    /// The frame was queued; the progress counts it.
    Accepted(Progress),
    /// The queue is full: the frame is handed back and the producer waits
    /// for room before offering it again.
    Full(Vec<u8>),
    /// The frame was refused.
    Rejected(EncodeError),
}

/// What the frame writer does next.
#[derive(Debug)]
pub enum WriterAction {
    /// Write this frame to the encoder's input.
    Write(Vec<u8>),
    /// The stream has ended: flush the input and stop.
    Finish,
    /// Nothing is queued yet: wait for a frame or the end of the stream.
    Wait,
    /// The writer has already stopped.
    Stop,
}

/// How the encoder process ended, as the caller observed it.
#[derive(Clone, Debug)]
pub enum ExitReport {
    /// The process exited; `status` describes the exit status.
    Exited { success: bool, status: String },
    /// Waiting for the process failed.
    WaitFailed(String),
}

/// The mathematical state of a session.
pub struct SessionView {
    /// The byte length every frame must have.
    pub expected: nat,
    /// The declared total number of frames.
    pub total: nat,
    /// How many frames the queue holds at most.
    pub capacity: nat,
    /// The queued frames, oldest first.
    pub queue: Seq<Seq<u8>>,
    /// How many frames were accepted so far.
    pub accepted: nat,
    /// Whether the end of the stream was signalled.
    pub closed: bool,
    pub writer: WriterState,
    /// Why the writer failed, once it has.
    pub failure: Option<Seq<char>>,
    /// The most recent diagnostic line.
    pub last_error: Option<Seq<char>>,
}

impl SessionView {
    pub open spec fn wf(self) -> bool {
        &&& 0 < self.capacity <= usize::MAX
        &&& self.queue.len() <= self.capacity
        &&& self.expected <= usize::MAX
        &&& self.total <= u32::MAX
        &&& self.accepted <= u64::MAX
        &&& self.writer != WriterState::Active ==> self.queue.len() == 0
        &&& self.writer == WriterState::Done ==> self.closed
        &&& (self.writer == WriterState::Failed <==> self.failure.is_some())
    }

    /// Whether frames can still be accepted.
    pub open spec fn open(self) -> bool {
        !self.closed && self.writer == WriterState::Active
    }
}

/// A fresh session: nothing queued, nothing accepted.
pub open spec fn initial_view(expected: nat, total: nat, capacity: nat) -> SessionView {
    SessionView {
        expected,
        total,
        capacity,
        queue: Seq::empty(),
        accepted: 0,
        closed: false,
        writer: WriterState::Active,
        failure: None,
        last_error: None,
    }
}

/// The answer to an offered frame, as a value of the model.
pub enum OfferOutcome {
    Accepted { frames: nat, total: nat },
    Full(Seq<u8>),
    Mismatch { expected: nat, actual: nat },
    Closed(Option<Seq<char>>),
    Exhausted,
    Other,
}

/// The answer that offering `frame` in state `s` gets.
pub open spec fn offer_outcome(s: SessionView, frame: Seq<u8>) -> OfferOutcome {
    if frame.len() != s.expected {
        OfferOutcome::Mismatch { expected: s.expected, actual: frame.len() }
    } else if !s.open() {
        OfferOutcome::Closed(s.last_error)
    } else if s.queue.len() >= s.capacity {
        OfferOutcome::Full(frame)
    } else if s.accepted >= u64::MAX {
        OfferOutcome::Exhausted
    } else {
        OfferOutcome::Accepted { frames: s.accepted + 1, total: s.total }
    }
}

/// The state after offering `frame` in state `s`: an accepted frame joins the
/// back of the queue and is counted; otherwise nothing changes.
pub open spec fn after_offer(s: SessionView, frame: Seq<u8>) -> SessionView {
    match offer_outcome(s, frame) {
        OfferOutcome::Accepted { .. } => SessionView {
            queue: s.queue.push(frame),
            accepted: s.accepted + 1,
            ..s
        },
        _ => s,
    }
}

/// The frame writer's next action, as a value of the model.
pub enum PullOutcome {
    Write(Seq<u8>),
    Finish,
    Wait,
    Stop,
}

/// What the writer does next in state `s`: the oldest queued frame first,
/// the end of the stream once the queue is drained.
pub open spec fn pull_outcome(s: SessionView) -> PullOutcome {
    if s.writer != WriterState::Active {
        PullOutcome::Stop
    } else if s.queue.len() > 0 {
        PullOutcome::Write(s.queue[0])
    } else if s.closed {
        PullOutcome::Finish
    } else {
        PullOutcome::Wait
    }
}

/// The state after the writer takes its next action in state `s`.
pub open spec fn after_pull(s: SessionView) -> SessionView {
    match pull_outcome(s) {
        PullOutcome::Write(_) => SessionView { queue: s.queue.drop_first(), ..s },
        PullOutcome::Finish => SessionView { writer: WriterState::Done, ..s },
        _ => s,
    }
}

/// The text recorded when a write to the encoder's input fails.
pub open spec fn write_failure_text(detail: Seq<char>) -> Seq<char> {
    "Failed to write to encoder input: "@ + detail
}

pub open spec fn opt_text(o: Option<String>) -> Option<Seq<char>> {
    match o {
        Some(s) => Some(s@),
        None => None,
    }
}

impl Offer {
    pub open spec fn outcome(&self) -> OfferOutcome {
        match self {
            Offer::Accepted(p) => OfferOutcome::Accepted { frames: p.frames as nat, total: p.total as nat },
            Offer::Full(f) => OfferOutcome::Full(f@),
            Offer::Rejected(EncodeError::FrameSizeMismatch { expected, actual }) => {
                OfferOutcome::Mismatch { expected: *expected as nat, actual: *actual as nat }
            },
            Offer::Rejected(EncodeError::PipeClosed { last_error }) => OfferOutcome::Closed(
                opt_text(*last_error),
            ),
            Offer::Rejected(EncodeError::TooManyFrames) => OfferOutcome::Exhausted,
            Offer::Rejected(_) => OfferOutcome::Other,
        }
    }
}

impl WriterAction {
    pub open spec fn outcome(&self) -> PullOutcome {
        match self {
            WriterAction::Write(f) => PullOutcome::Write(f@),
            WriterAction::Finish => PullOutcome::Finish,
            WriterAction::Wait => PullOutcome::Wait,
            WriterAction::Stop => PullOutcome::Stop,
        }
    }
}

fn clone_text(o: &Option<String>) -> (r: Option<String>)
    ensures
        opt_text(r) == opt_text(*o),
{
    match o {
        Some(s) => Some(s.clone()),
        None => None,
    }
}

/// The state of one streaming encode session.
pub struct Session {
    expected_frame_size: usize,
    total_frames: u32,
    capacity: usize,
    queue: VecDeque<Vec<u8>>,
    accepted: u64,
    closed: bool,
    writer: WriterState,
    failure: Option<String>,
    last_error: Option<String>,
}

pub open spec fn frames_of(q: Seq<Vec<u8>>) -> Seq<Seq<u8>> {
    q.map_values(|f: Vec<u8>| f@)
}

impl View for Session {
    type V = SessionView;

    closed spec fn view(&self) -> SessionView {
        SessionView {
            expected: self.expected_frame_size as nat,
            total: self.total_frames as nat,
            capacity: self.capacity as nat,
            queue: frames_of(self.queue@),
            accepted: self.accepted as nat,
            closed: self.closed,
            writer: self.writer,
            failure: opt_text(self.failure),
            last_error: opt_text(self.last_error),
        }
    }
}

impl Session {
    /// Every session that `new` makes is well formed, and every method keeps
    /// it so.
    pub open spec fn wf(&self) -> bool {
        self@.wf()
    }

    /// Starts a session for frames of `width` x `height` RGBA pixels, with a
    /// queue of `capacity` frames; fails when a frame's byte length,
    /// `width * height * 4`, does not fit in a `usize`.
    pub fn new(width: u32, height: u32, total_frames: u32, capacity: usize) -> (r: Result<
        Session,
        EncodeError,
    >)
        requires
            capacity > 0,
        ensures
            (width as nat) * (height as nat) * 4 <= usize::MAX ==> (r matches Ok(s) && s.wf() && s@
                == initial_view((width as nat) * (height as nat) * 4, total_frames as nat, capacity as nat)),
            (width as nat) * (height as nat) * 4 > usize::MAX ==> r == Err::<Session, EncodeError>(
                EncodeError::FrameTooLarge { width, height },
            ),
    {
        let size = match (width as usize).checked_mul(height as usize) {
            Some(p) => p.checked_mul(4),
            None => None,
        };
        match size {
            Some(expected_frame_size) => {
                let s = Session {
                    expected_frame_size,
                    total_frames,
                    capacity,
                    queue: VecDeque::new(),
                    accepted: 0,
                    closed: false,
                    writer: WriterState::Active,
                    failure: None,
                    last_error: None,
                };
                assert(s@.queue =~= Seq::<Seq<u8>>::empty());
                Ok(s)
            },
            None => {
                assert((width as nat) * (height as nat) * 4 > usize::MAX) by (nonlinear_arith)
                    requires
                        (width as nat) * (height as nat) > usize::MAX || (width as nat) * (
                        height as nat) * 4 > usize::MAX,
                ;
                Err(EncodeError::FrameTooLarge { width, height })
            },
        }
    }

    /// Offers a frame from the producer. A frame of the wrong length is
    /// refused and changes nothing; a frame offered after the writer stopped
    /// or the stream ended is refused with the last diagnostic line; a frame
    /// that finds the queue full is handed back; otherwise it joins the back
    /// of the queue and the count of accepted frames grows by one.
    pub fn offer_frame(&mut self, frame: Vec<u8>) -> (r: Offer)
        requires
            old(self).wf(),
        ensures
            final(self).wf(),
            r.outcome() == offer_outcome(old(self)@, frame@),
            final(self)@ == after_offer(old(self)@, frame@),
    {
        if frame.len() != self.expected_frame_size {
            return Offer::Rejected(
                EncodeError::FrameSizeMismatch {
                    expected: self.expected_frame_size,
                    actual: frame.len(),
                },
            );
        }
        if self.closed || self.writer != WriterState::Active {
            return Offer::Rejected(EncodeError::PipeClosed { last_error: clone_text(&self.last_error) });
        }
        if self.queue.len() >= self.capacity {
            return Offer::Full(frame);
        }
        if self.accepted == u64::MAX {
            return Offer::Rejected(EncodeError::TooManyFrames);
        }
        let ghost f = frame;
        self.queue.push_back(frame);
        self.accepted = self.accepted + 1;
        assert(frames_of(self.queue@) =~= frames_of(old(self).queue@).push(f@));
        Offer::Accepted(Progress { frames: self.accepted, total: self.total_frames })
    }

    /// The frame writer's next action: the oldest queued frame, or the end
    /// of the stream once everything queued has been taken, or a wait.
    pub fn next_for_writer(&mut self) -> (r: WriterAction)
        requires
            old(self).wf(),
        ensures
            final(self).wf(),
            r.outcome() == pull_outcome(old(self)@),
            final(self)@ == after_pull(old(self)@),
    {
        if self.writer != WriterState::Active {
            return WriterAction::Stop;
        }
        match self.queue.pop_front() {
            Some(frame) => {
                assert(frames_of(self.queue@) =~= frames_of(old(self).queue@).drop_first());
                WriterAction::Write(frame)
            },
            None => {
                if self.closed {
                    self.writer = WriterState::Done;
                    WriterAction::Finish
                } else {
                    WriterAction::Wait
                }
            },
        }
    }

    /// Records that writing a frame to the encoder's input failed: the writer
    /// stops, the frames still queued are dropped, and the failure becomes
    /// the last diagnostic line.
    pub fn writer_failed(&mut self, detail: &str)
        requires
            old(self).wf(),
        ensures
            final(self).wf(),
            final(self)@ == (SessionView {
                queue: Seq::empty(),
                writer: WriterState::Failed,
                failure: Some(write_failure_text(detail@)),
                last_error: Some(write_failure_text(detail@)),
                ..old(self)@
            }),
    {
        let mut text = String::from_str("Failed to write to encoder input: ");
        text.append(detail);
        self.queue = VecDeque::new();
        self.writer = WriterState::Failed;
        self.failure = Some(text.clone());
        self.last_error = Some(text);
        assert(frames_of(self.queue@) =~= Seq::<Seq<u8>>::empty());
    }

    /// Records a diagnostic line of the encoder; only the most recent is kept.
    pub fn record_diagnostic(&mut self, line: String)
        requires
            old(self).wf(),
        ensures
            final(self).wf(),
            final(self)@ == (SessionView { last_error: Some(line@), ..old(self)@ }),
    {
        self.last_error = Some(line);
    }

    /// Signals the end of the stream: no frame is accepted any more, and the
    /// writer finishes once it has written everything queued.
    pub fn close(&mut self)
        requires
            old(self).wf(),
        ensures
            final(self).wf(),
            final(self)@ == (SessionView { closed: true, ..old(self)@ }),
    {
        self.closed = true;
    }

    /// Abandons the session: no frame is accepted any more and the frames
    /// still queued are dropped, so the writer stops at once.
    pub fn cancel(&mut self)
        requires
            old(self).wf(),
        ensures
            final(self).wf(),
            final(self)@ == (SessionView { closed: true, queue: Seq::empty(), ..old(self)@ }),
    {
        self.closed = true;
        self.queue = VecDeque::new();
        assert(frames_of(self.queue@) =~= Seq::<Seq<u8>>::empty());
    }

    /// Decides how a finished session ended, once its writer has been joined
    /// and its encoder has exited: a writer that ended abnormally or failed
    /// to write fails the session first, then an encoder that could not be
    /// waited for or exited with failure; otherwise the session succeeded.
    pub fn conclude(&self, writer_joined: bool, exit: ExitReport, log_path: String) -> (r: Result<
        (),
        EncodeError,
    >)
        requires
            self.wf(),
        ensures
            !writer_joined ==> r == Err::<(), EncodeError>(EncodeError::WorkerPanicked),
            writer_joined && self@.writer == WriterState::Failed ==> (r matches Err(
                EncodeError::WriterFailed(m),
            ) && self@.failure == Some(m@)),
            writer_joined && self@.writer != WriterState::Failed ==> match exit {
                ExitReport::WaitFailed(m) => r == Err::<(), EncodeError>(EncodeError::WaitFailed(m)),
                ExitReport::Exited { success: false, status } => r matches Err(
                    EncodeError::EncoderExitFailure { status: st, last_error: le, log_path: lp },
                ) && st == status && opt_text(le) == self@.last_error && lp == log_path,
                ExitReport::Exited { success: true, .. } => r == Ok::<(), EncodeError>(()),
            },
    {
        if !writer_joined {
            return Err(EncodeError::WorkerPanicked);
        }
        if self.writer == WriterState::Failed {
            return match &self.failure {
                Some(m) => Err(EncodeError::WriterFailed(m.clone())),
                None => Err(EncodeError::WorkerPanicked),
            };
        }
        match exit {
            ExitReport::WaitFailed(m) => Err(EncodeError::WaitFailed(m)),
            ExitReport::Exited { success, status } => {
                if success {
                    Ok(())
                } else {
                    Err(
                        EncodeError::EncoderExitFailure {
                            status,
                            last_error: clone_text(&self.last_error),
                            log_path,
                        },
                    )
                }
            },
        }
    }

    /// How many frames were accepted so far.
    pub fn frames_accepted(&self) -> (r: u64)
        ensures
            r as nat == self@.accepted,
    {
        self.accepted
    }

    /// The declared total number of frames.
    pub fn total_frames(&self) -> (r: u32)
        ensures
            r as nat == self@.total,
    {
        self.total_frames
    }

    /// The byte length every frame must have.
    pub fn expected_frame_size(&self) -> (r: usize)
        ensures
            r as nat == self@.expected,
    {
        self.expected_frame_size
    }

    /// How many frames are queued and not yet taken by the writer.
    pub fn queued(&self) -> (r: usize)
        ensures
            r as nat == self@.queue.len(),
    {
        self.queue.len()
    }

    /// The writer's state.
    pub fn writer_state(&self) -> (r: WriterState)
        ensures
            r == self@.writer,
    {
        self.writer
    }

    /// Whether frames can still be accepted.
    pub fn is_open(&self) -> (r: bool)
        ensures
            r == self@.open(),
    {
        !self.closed && self.writer == WriterState::Active
    }

    /// The most recent diagnostic line, if any.
    pub fn last_error(&self) -> (r: Option<String>)
        ensures
            opt_text(r) == self@.last_error,
    {
        clone_text(&self.last_error)
    }
}

} // verus!
