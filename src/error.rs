//! The failures a streaming encode session can report.
use vstd::prelude::*;

verus! {

/// Why an operation on an encode session failed.
#[derive(Clone, Debug, PartialEq, Eq)]
pub enum EncodeError {
    /// No encoder executable was found where one is expected.
    BinaryNotFound,
    /// The encoder executable exists but failed its self-check.
    BinaryNotRunnable,
    /// The operating system refused to start the encoder.
    SpawnFailed(String),
    /// A frame's byte length differs from `width * height * 4`.
    FrameSizeMismatch { expected: usize, actual: usize },
    /// The frame dimensions give a frame size that does not fit in memory.
    FrameTooLarge { width: u32, height: u32 },
    /// The frame writer has stopped, so no frame can reach the encoder; the
    /// last diagnostic line is attached when there is one.
    PipeClosed { last_error: Option<String> },
    /// The encoder exited with a failure status.
    EncoderExitFailure { status: String, last_error: Option<String>, log_path: String },
    /// Waiting for the encoder to exit failed.
    WaitFailed(String),
    /// The frame writer could not write to the encoder's input.
    WriterFailed(String),
    /// The frame writer ended abnormally.
    WorkerPanicked,
    /// No live session has this identifier.
    SessionNotFound(u64),
    /// The frame counter of the session cannot count any further.
    TooManyFrames,
    /// Every session identifier has been handed out.
    IdentifiersExhausted,
}

} // verus!
