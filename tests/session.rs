use stream_encoder::error::EncodeError;
use stream_encoder::session::{
    ExitReport, Offer, Progress, Session, WriterAction, WriterState, QUEUE_CAPACITY,
};

fn fresh(w: u32, h: u32, total: u32, cap: usize) -> Session {
    match Session::new(w, h, total, cap) {
        Ok(s) => s,
        Err(e) => panic!("unexpected {:?}", e),
    }
}

fn accepted(o: Offer) -> Progress {
    match o {
        Offer::Accepted(p) => p,
        other => panic!("not accepted: {:?}", other),
    }
}

#[test]
fn new_session_sizes() {
    let s = fresh(4, 4, 3, QUEUE_CAPACITY);
    assert_eq!(s.expected_frame_size(), 64);
    assert_eq!(s.total_frames(), 3);
    assert_eq!(s.frames_accepted(), 0);
    assert_eq!(s.queued(), 0);
    assert!(s.is_open());
    assert_eq!(s.writer_state(), WriterState::Active);
    assert_eq!(s.last_error(), None);
    let big = fresh(1080, 1080, 1, 1);
    assert_eq!(big.expected_frame_size(), 4_665_600);
}

#[test]
fn new_session_too_large() {
    match Session::new(u32::MAX, u32::MAX, 1, 1) {
        Err(e) => assert_eq!(e, EncodeError::FrameTooLarge { width: u32::MAX, height: u32::MAX }),
        Ok(_) => panic!("a frame of that size cannot be held"),
    }
}

#[test]
fn progress_counts_each_valid_frame() {
    let mut s = fresh(2, 3, 4, QUEUE_CAPACITY);
    for n in 0..6u64 {
        let p = accepted(s.offer_frame(vec![n as u8; 24]));
        assert_eq!(p, Progress { frames: n + 1, total: 4 });
    }
    assert_eq!(s.frames_accepted(), 6);
}

#[test]
fn wrong_length_is_refused_without_change() {
    let mut s = fresh(2, 2, 10, QUEUE_CAPACITY);
    accepted(s.offer_frame(vec![0; 16]));
    for len in [0usize, 1, 15, 17, 64] {
        match s.offer_frame(vec![0; len]) {
            Offer::Rejected(e) => {
                assert_eq!(e, EncodeError::FrameSizeMismatch { expected: 16, actual: len })
            }
            other => panic!("unexpected {:?}", other),
        }
    }
    assert_eq!(s.frames_accepted(), 1);
    assert_eq!(s.queued(), 1);
}

#[test]
fn full_queue_hands_frame_back() {
    let cap = 3;
    let mut s = fresh(1, 1, 10, cap);
    for i in 0..cap {
        accepted(s.offer_frame(vec![i as u8; 4]));
    }
    match s.offer_frame(vec![9; 4]) {
        Offer::Full(f) => assert_eq!(f, vec![9; 4]),
        other => panic!("unexpected {:?}", other),
    }
    assert_eq!(s.queued(), cap);
    assert_eq!(s.frames_accepted(), cap as u64);
    match s.next_for_writer() {
        WriterAction::Write(f) => assert_eq!(f, vec![0; 4]),
        other => panic!("unexpected {:?}", other),
    }
    let p = accepted(s.offer_frame(vec![9; 4]));
    assert_eq!(p.frames, 4);
}

#[test]
fn writer_sees_frames_in_push_order() {
    let mut s = fresh(1, 2, 5, 2);
    let mut recorder: Vec<u8> = Vec::new();
    let frames: Vec<Vec<u8>> = (0..5u8).map(|i| vec![i, i + 10, i + 20, i + 30, i, i, i, i]).collect();
    let mut next = 0;
    loop {
        if next < frames.len() {
            match s.offer_frame(frames[next].clone()) {
                Offer::Accepted(_) => next += 1,
                Offer::Full(_) => {}
                Offer::Rejected(e) => panic!("unexpected {:?}", e),
            }
        } else {
            s.close();
        }
        match s.next_for_writer() {
            WriterAction::Write(f) => recorder.extend_from_slice(&f),
            WriterAction::Finish => break,
            WriterAction::Wait => {}
            WriterAction::Stop => panic!("writer stopped early"),
        }
    }
    let want: Vec<u8> = frames.concat();
    assert_eq!(recorder, want);
    assert_eq!(s.writer_state(), WriterState::Done);
    assert!(matches!(s.next_for_writer(), WriterAction::Stop));
}

#[test]
fn writer_waits_then_finishes_after_close() {
    let mut s = fresh(1, 1, 1, 4);
    assert!(matches!(s.next_for_writer(), WriterAction::Wait));
    accepted(s.offer_frame(vec![1, 2, 3, 4]));
    s.close();
    assert!(!s.is_open());
    match s.offer_frame(vec![1, 2, 3, 4]) {
        Offer::Rejected(e) => assert_eq!(e, EncodeError::PipeClosed { last_error: None }),
        other => panic!("unexpected {:?}", other),
    }
    assert!(matches!(s.next_for_writer(), WriterAction::Write(_)));
    assert!(matches!(s.next_for_writer(), WriterAction::Finish));
}

#[test]
fn write_failure_closes_the_pipe() {
    let mut s = fresh(1, 1, 3, 4);
    accepted(s.offer_frame(vec![0; 4]));
    accepted(s.offer_frame(vec![1; 4]));
    s.record_diagnostic("Conversion failed!".to_string());
    assert_eq!(s.last_error(), Some("Conversion failed!".to_string()));
    s.writer_failed("Broken pipe (os error 32)");
    assert_eq!(s.writer_state(), WriterState::Failed);
    assert_eq!(s.queued(), 0);
    let text = "Failed to write to encoder input: Broken pipe (os error 32)".to_string();
    match s.offer_frame(vec![2; 4]) {
        Offer::Rejected(e) => assert_eq!(e, EncodeError::PipeClosed { last_error: Some(text.clone()) }),
        other => panic!("unexpected {:?}", other),
    }
    assert!(matches!(s.next_for_writer(), WriterAction::Stop));
    assert_eq!(
        s.conclude(true, ExitReport::Exited { success: false, status: "exit status: 1".to_string() }, "/tmp/log".to_string()),
        Err(EncodeError::WriterFailed(text))
    );
}

#[test]
fn cancel_drops_queued_frames() {
    let mut s = fresh(1, 1, 3, 4);
    accepted(s.offer_frame(vec![0; 4]));
    s.cancel();
    assert_eq!(s.queued(), 0);
    assert!(matches!(s.offer_frame(vec![0; 4]), Offer::Rejected(EncodeError::PipeClosed { .. })));
    assert!(matches!(s.next_for_writer(), WriterAction::Finish));
}

#[test]
fn conclusions() {
    let mut s = fresh(1, 1, 1, 1);
    s.close();
    let ok = ExitReport::Exited { success: true, status: "exit status: 0".to_string() };
    assert_eq!(s.conclude(true, ok.clone(), "log".to_string()), Ok(()));
    assert_eq!(s.conclude(false, ok, "log".to_string()), Err(EncodeError::WorkerPanicked));
    assert_eq!(
        s.conclude(true, ExitReport::WaitFailed("no child".to_string()), "log".to_string()),
        Err(EncodeError::WaitFailed("no child".to_string()))
    );
    let bad = ExitReport::Exited { success: false, status: "exit status: 1".to_string() };
    assert_eq!(
        s.conclude(true, bad.clone(), "log".to_string()),
        Err(EncodeError::EncoderExitFailure {
            status: "exit status: 1".to_string(),
            last_error: None,
            log_path: "log".to_string(),
        })
    );
    s.record_diagnostic("Invalid argument".to_string());
    assert_eq!(
        s.conclude(true, bad, "log".to_string()),
        Err(EncodeError::EncoderExitFailure {
            status: "exit status: 1".to_string(),
            last_error: Some("Invalid argument".to_string()),
            log_path: "log".to_string(),
        })
    );
}
