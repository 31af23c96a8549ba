use toupcam::pipeline::producer_step;
use toupcam::pipeline::StopPoll;
use toupcam::Error;
use toupcam::Frame;
use toupcam::TransportKind;

fn frame() -> Frame {
    Frame { data: vec![1, 2, 3], height: 1, width: 3, bpp: 1, elapsed_ms: 0 }
}

#[test]
fn frames_are_forwarded() {
    let (fwd, exit) = producer_step(Ok(frame()), StopPoll::Empty);
    assert_eq!(fwd.unwrap().data, vec![1, 2, 3]);
    assert!(!exit);
}

#[test]
fn first_frame_is_discarded_and_loop_goes_on() {
    let (fwd, exit) = producer_step(Err(Error::FirstFrame), StopPoll::Empty);
    assert!(fwd.is_none());
    assert!(!exit);
}

#[test]
fn transport_error_ends_the_loop_without_retry() {
    let (fwd, exit) = producer_step(
        Err(Error::Transport(TransportKind::Timeout)),
        StopPoll::Empty,
    );
    assert!(fwd.is_none());
    assert!(exit);
    let (fwd, exit) = producer_step(Err(Error::Transport(TransportKind::NoDevice)), StopPoll::Empty);
    assert!(fwd.is_none());
    assert!(exit);
}

#[test]
fn stop_request_ends_the_loop_after_the_read_in_flight() {
    // The poll is non-blocking and honored as soon as the current read
    // returns, frame or not: shutdown never waits for another transfer.
    let (fwd, exit) = producer_step(Ok(frame()), StopPoll::Requested);
    assert!(fwd.is_some());
    assert!(exit);
    let (fwd, exit) = producer_step(Err(Error::FirstFrame), StopPoll::Requested);
    assert!(fwd.is_none());
    assert!(exit);
}

#[test]
fn queue_policy_keeps_the_newest_frame() {
    // Bounded-drop-oldest: of everything that queued up, only the newest
    // frame survives and the rest are counted as dropped.
    let old_frame = Frame { data: vec![1], height: 1, width: 1, bpp: 1, elapsed_ms: 1 };
    let mid_frame = Frame { data: vec![2], height: 1, width: 1, bpp: 1, elapsed_ms: 2 };
    let new_frame = Frame { data: vec![3], height: 1, width: 1, bpp: 1, elapsed_ms: 3 };
    let (kept, dropped) = toupcam::pipeline::latest_frame(vec![old_frame, mid_frame, new_frame]);
    assert_eq!(kept.unwrap().data, vec![3]);
    assert_eq!(dropped, 2);

    let (kept, dropped) = toupcam::pipeline::latest_frame(vec![frame()]);
    assert_eq!(kept.unwrap().data, vec![1, 2, 3]);
    assert_eq!(dropped, 0);

    let (kept, dropped) = toupcam::pipeline::latest_frame(Vec::new());
    assert!(kept.is_none());
    assert_eq!(dropped, 0);
}

#[test]
fn lost_stop_channel_counts_as_stop() {
    let (fwd, exit) = producer_step(Ok(frame()), StopPoll::Disconnected);
    assert!(fwd.is_some());
    assert!(exit);
}
