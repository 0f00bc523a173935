use screencast::channel::FrameChannel;
use screencast::format::{parse_format_selection, Fraction, PixelLayout, MODIFIER_NONE};
use screencast::worker::{
    drain_and_process, drain_latest, streaming_wakeup, worker_step, Command, WorkerAction,
    WorkerEvent, WorkerState,
};

fn fmt_4x4() -> screencast::format::NegotiatedFormat {
    parse_format_selection(
        PixelLayout::Bgra,
        4,
        4,
        Fraction { num: 25, denom: 1 },
        MODIFIER_NONE,
    )
    .unwrap()
}

#[test]
fn state_machine_happy_path() {
    let fmt = fmt_4x4();
    let (s, a) = worker_step(WorkerState::Idle, &WorkerEvent::Attached);
    assert_eq!((s, a), (WorkerState::Connected, WorkerAction::DoNothing));
    let (s, a) = worker_step(s, &WorkerEvent::StreamOpened);
    assert_eq!((s, a), (WorkerState::Negotiating, WorkerAction::OfferFormats));
    let (s, a) = worker_step(s, &WorkerEvent::FormatSelected(fmt));
    assert_eq!((s, a), (WorkerState::Streaming, WorkerAction::StoreFormat));
    let (s, a) = worker_step(s, &WorkerEvent::BufferReady);
    assert_eq!((s, a), (WorkerState::Streaming, WorkerAction::ProcessBuffers));
    let (s, a) = worker_step(s, &WorkerEvent::Control(Command::Stop));
    assert_eq!((s, a), (WorkerState::Stopped, WorkerAction::Shutdown));
}

#[test]
fn no_frames_accepted_before_streaming() {
    let (s, a) = worker_step(WorkerState::Idle, &WorkerEvent::BufferReady);
    assert_eq!((s, a), (WorkerState::Idle, WorkerAction::DoNothing));
    let (s, a) = worker_step(WorkerState::Connected, &WorkerEvent::BufferReady);
    assert_eq!((s, a), (WorkerState::Connected, WorkerAction::DoNothing));
    let (s, a) = worker_step(WorkerState::Negotiating, &WorkerEvent::BufferReady);
    assert_eq!((s, a), (WorkerState::Negotiating, WorkerAction::DoNothing));
}

#[test]
fn producer_closure_stops_the_worker() {
    let (s, a) = worker_step(WorkerState::Streaming, &WorkerEvent::ProducerClosed);
    assert_eq!((s, a), (WorkerState::Stopped, WorkerAction::Shutdown));
}

#[test]
fn stop_terminates_and_nothing_follows() {
    // Send Stop in the middle of Streaming; afterwards no event may make
    // the worker process another buffer, and the state stays Stopped.
    let fmt = fmt_4x4();
    let events = vec![
        WorkerEvent::Attached,
        WorkerEvent::StreamOpened,
        WorkerEvent::FormatSelected(fmt),
        WorkerEvent::BufferReady,
        WorkerEvent::Control(Command::Stop),
        WorkerEvent::BufferReady,
        WorkerEvent::BufferReady,
        WorkerEvent::StreamOpened,
        WorkerEvent::Attached,
    ];
    let mut state = WorkerState::Idle;
    let mut saw_stop = false;
    for e in &events {
        let (next, action) = worker_step(state, e);
        if saw_stop {
            assert_eq!(next, WorkerState::Stopped);
            assert_ne!(action, WorkerAction::ProcessBuffers);
            assert_eq!(action, WorkerAction::DoNothing);
        }
        if matches!(e, WorkerEvent::Control(Command::Stop)) {
            saw_stop = true;
            assert_eq!(next, WorkerState::Stopped);
            assert_eq!(action, WorkerAction::Shutdown);
        }
        state = next;
    }
    assert_eq!(state, WorkerState::Stopped);
}

#[test]
fn stopped_is_absorbing() {
    let fmt = fmt_4x4();
    let events = [
        WorkerEvent::Attached,
        WorkerEvent::StreamOpened,
        WorkerEvent::FormatSelected(fmt),
        WorkerEvent::BufferReady,
        WorkerEvent::Control(Command::Stop),
        WorkerEvent::ProducerClosed,
    ];
    for e in events {
        let (s, a) = worker_step(WorkerState::Stopped, &e);
        assert_eq!((s, a), (WorkerState::Stopped, WorkerAction::DoNothing));
    }
}

#[test]
fn drain_latest_keeps_only_newest() {
    assert_eq!(drain_latest(vec![10, 20, 30, 40, 50]), Some(50));
    assert_eq!(drain_latest(Vec::<i32>::new()), None);
    assert_eq!(drain_latest(vec![7]), Some(7));
}

#[test]
fn five_notifications_one_frame() {
    // Five buffer payloads queued before the worker wakes: exactly one
    // frame comes out, and it is the last payload's.
    let fmt = fmt_4x4();
    let mut payloads: Vec<Vec<u8>> = Vec::new();
    for p in 0u8..5 {
        payloads.push(vec![p + 1; 64]);
    }
    let frames = drain_and_process(&fmt, payloads, 16);
    assert_eq!(frames.len(), 1);
    assert_eq!(frames[0].len(), 4 * 4 * 4);
    // The last payload was all-5s; the fix-up permutes bytes within each
    // pixel, so the bytes are still all 5.
    assert!(frames[0].iter().all(|&b| b == 5));
}

#[test]
fn empty_batch_no_frame() {
    let fmt = fmt_4x4();
    let frames = drain_and_process(&fmt, Vec::new(), 16);
    assert_eq!(frames.len(), 0);
}

#[test]
fn wakeup_pushes_the_newest_frame_into_the_channel() {
    let fmt = fmt_4x4();
    let mut ch = FrameChannel::new(2, 64);
    let payloads = vec![vec![1u8; 64], vec![2u8; 64], vec![3u8; 64]];
    let unpushed = streaming_wakeup(&fmt, payloads, 16, &mut ch);
    assert!(unpushed.is_none());
    assert_eq!(ch.len(), 1);
    let frame = ch.pop_oldest().unwrap();
    assert_eq!(frame.len(), 64);
    assert!(frame.iter().all(|&b| b == 3));
}

#[test]
fn wakeup_on_full_channel_returns_the_frame() {
    let fmt = fmt_4x4();
    let mut ch = FrameChannel::new(1, 64);
    assert!(streaming_wakeup(&fmt, vec![vec![1u8; 64]], 16, &mut ch).is_none());
    // The channel is full now: the next frame comes back for a retry and
    // nothing already queued is touched.
    let unpushed = streaming_wakeup(&fmt, vec![vec![2u8; 64]], 16, &mut ch);
    assert_eq!(unpushed, Some(vec![2u8; 64]));
    assert_eq!(ch.len(), 1);
    assert!(ch.pop_oldest().unwrap().iter().all(|&b| b == 1));
}

#[test]
fn wakeup_with_empty_batch_changes_nothing() {
    let fmt = fmt_4x4();
    let mut ch = FrameChannel::new(2, 64);
    assert!(streaming_wakeup(&fmt, Vec::new(), 16, &mut ch).is_none());
    assert_eq!(ch.len(), 0);
}

#[test]
fn short_newest_payload_drops_the_frame() {
    let fmt = fmt_4x4();
    let payloads = vec![vec![1u8; 64], vec![2u8; 8]];
    let frames = drain_and_process(&fmt, payloads, 16);
    assert_eq!(frames.len(), 0);
}
