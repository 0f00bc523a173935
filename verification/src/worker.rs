//! The capture worker's state machine and its buffer-draining policy.
//!
//! The worker owns the producer connection and runs one event loop:
//! `Idle → Connected → Negotiating → Streaming → Stopped`.  Every decision
//! the loop takes is the step function here, from state and event to next
//! state and action; the event loop itself only performs the returned
//! action.  Buffer-ready notifications are drained latest-wins: of all
//! buffers queued since the last wakeup only the newest one becomes a
//! frame.

use vstd::prelude::*;

use crate::channel::FrameChannel;
use crate::format::NegotiatedFormat;
use crate::frame::{fixup_spec, pack_spec, process_frame, process_frame_spec};

verus! {

/// A control message from the lifecycle controller into the worker's event
/// loop.
#[derive(Clone, Copy, Debug, PartialEq, Eq, Structural)]
pub enum Command {
    Stop,
}

/// The worker's position in its lifecycle.  `Stopped` is absorbing: no
/// path re-enters the loop once it is left.
#[derive(Clone, Copy, Debug, PartialEq, Eq, Structural)]
pub enum WorkerState {
    Idle,
    Connected,
    Negotiating,
    Streaming,
    Stopped,
}

/// One observation the event loop wakes up on.
#[derive(Clone, Copy, Debug, PartialEq, Eq, Structural)]
pub enum WorkerEvent {
    /// The producer's inherited connection was attached.
    Attached,
    /// The stream object exists and can be offered formats.
    StreamOpened,
    /// The producer chose a format; the selection has been validated.
    FormatSelected(NegotiatedFormat),
    /// One or more buffers are ready to be dequeued.
    BufferReady,
    /// A control message arrived from the lifecycle controller.
    Control(Command),
    /// The protocol connection itself reported closure.
    ProducerClosed,
}

/// What the event loop must do after a step.
#[derive(Clone, Copy, Debug, PartialEq, Eq, Structural)]
pub enum WorkerAction {
    DoNothing,
    /// Send the enumerated format/modifier offers to the producer.
    OfferFormats,
    /// Record the validated selection as the session's negotiated format.
    StoreFormat,
    /// Drain the queued buffers latest-wins and push at most one frame.
    ProcessBuffers,
    /// Release the stream and leave the event loop.
    Shutdown,
}

/// The complete transition table of the worker.
pub open spec fn step_spec(state: WorkerState, event: WorkerEvent) -> (WorkerState, WorkerAction) {
    match state {
        WorkerState::Stopped => (WorkerState::Stopped, WorkerAction::DoNothing),
        _ => match event {
            WorkerEvent::Control(Command::Stop) => (WorkerState::Stopped, WorkerAction::Shutdown),
            WorkerEvent::ProducerClosed => (WorkerState::Stopped, WorkerAction::Shutdown),
            WorkerEvent::Attached => {
                if state == WorkerState::Idle {
                    (WorkerState::Connected, WorkerAction::DoNothing)
                } else {
                    (state, WorkerAction::DoNothing)
                }
            },
            WorkerEvent::StreamOpened => {
                if state == WorkerState::Connected {
                    (WorkerState::Negotiating, WorkerAction::OfferFormats)
                } else {
                    (state, WorkerAction::DoNothing)
                }
            },
            WorkerEvent::FormatSelected(_) => {
                if state == WorkerState::Negotiating {
                    (WorkerState::Streaming, WorkerAction::StoreFormat)
                } else {
                    (state, WorkerAction::DoNothing)
                }
            },
            WorkerEvent::BufferReady => {
                if state == WorkerState::Streaming {
                    (WorkerState::Streaming, WorkerAction::ProcessBuffers)
                } else {
                    (state, WorkerAction::DoNothing)
                }
            },
        },
    }
}

/// One step of the worker's event loop.
pub fn worker_step(state: WorkerState, event: &WorkerEvent) -> (r: (WorkerState, WorkerAction))
    ensures
        r == step_spec(state, *event),
{
    match state {
        WorkerState::Stopped => (WorkerState::Stopped, WorkerAction::DoNothing),
        _ => match event {
            WorkerEvent::Control(Command::Stop) => (WorkerState::Stopped, WorkerAction::Shutdown),
            WorkerEvent::ProducerClosed => (WorkerState::Stopped, WorkerAction::Shutdown),
            WorkerEvent::Attached => {
                if state == WorkerState::Idle {
                    (WorkerState::Connected, WorkerAction::DoNothing)
                } else {
                    (state, WorkerAction::DoNothing)
                }
            },
            WorkerEvent::StreamOpened => {
                if state == WorkerState::Connected {
                    (WorkerState::Negotiating, WorkerAction::OfferFormats)
                } else {
                    (state, WorkerAction::DoNothing)
                }
            },
            WorkerEvent::FormatSelected(_) => {
                if state == WorkerState::Negotiating {
                    (WorkerState::Streaming, WorkerAction::StoreFormat)
                } else {
                    (state, WorkerAction::DoNothing)
                }
            },
            WorkerEvent::BufferReady => {
                if state == WorkerState::Streaming {
                    (WorkerState::Streaming, WorkerAction::ProcessBuffers)
                } else {
                    (state, WorkerAction::DoNothing)
                }
            },
        },
    }
}

/// The state after the first `k` of a sequence of events.
pub open spec fn state_at(start: WorkerState, events: Seq<WorkerEvent>, k: int) -> WorkerState
    decreases k,
{
    if k <= 0 {
        start
    } else {
        step_spec(state_at(start, events, k - 1), events[k - 1]).0
    }
}

/// The action taken on event `k` of a sequence of events.
pub open spec fn action_at(start: WorkerState, events: Seq<WorkerEvent>, k: int) -> WorkerAction {
    step_spec(state_at(start, events, k), events[k]).1
}

/// Once the worker is stopped it stays stopped, whatever else arrives.
pub proof fn lemma_stopped_absorbing(start: WorkerState, events: Seq<WorkerEvent>, i: int, k: int)
    requires
        0 <= i <= k,
        state_at(start, events, i) == WorkerState::Stopped,
    ensures
        state_at(start, events, k) == WorkerState::Stopped,
    decreases k - i,
{
    if k > i {
        lemma_stopped_absorbing(start, events, i, k - 1);
    }
}

/// Stop is always followed by loop termination: after the step that
/// observes a stop command the worker is stopped for good, and no later
/// event makes it process (and hence push) another frame.
pub proof fn lemma_stop_halts(start: WorkerState, events: Seq<WorkerEvent>, i: int)
    requires
        0 <= i < events.len(),
        events[i] == WorkerEvent::Control(Command::Stop),
    ensures
        forall|k: int| i < k <= events.len() ==> state_at(start, events, k) == WorkerState::Stopped,
        forall|j: int|
            i < j < events.len() ==> action_at(start, events, j) != WorkerAction::ProcessBuffers,
{
    assert(state_at(start, events, i + 1) == WorkerState::Stopped);
    assert forall|k: int| i < k <= events.len() implies state_at(start, events, k)
        == WorkerState::Stopped by {
        lemma_stopped_absorbing(start, events, i + 1, k);
    }
}

/// Keep only the most recently queued of the buffers drained in one wakeup;
/// older ones are deliberately dropped to bound latency.
pub fn drain_latest<T>(queued: Vec<T>) -> (r: Option<T>)
    ensures
        queued@.len() == 0 ==> r is None,
        queued@.len() > 0 ==> r == Some(queued@.last()),
{
    let ghost orig = queued@;
    let mut queued = queued;
    let mut newest: Option<T> = None;
    while queued.len() > 0
        invariant
            orig =~= orig.subrange(0, orig.len() - queued@.len() as int) + queued@,
            queued@.len() < orig.len() ==> newest == Some(
                orig[orig.len() - queued@.len() as int - 1],
            ),
            queued@.len() == orig.len() ==> newest is None,
        decreases queued@.len(),
    {
        let next = queued.remove(0);
        newest = Some(next);
    }
    newest
}

/// What one wakeup in `Streaming` pushes into the frame channel, given the
/// payloads of every buffer queued since the last wakeup: the newest
/// payload's frame if it processes cleanly, nothing otherwise.
pub open spec fn batch_frames_spec(
    fmt: NegotiatedFormat,
    payloads: Seq<Seq<u8>>,
    stride: int,
) -> Seq<Seq<u8>> {
    if payloads.len() == 0 {
        Seq::empty()
    } else {
        match process_frame_spec(fmt, payloads.last(), stride) {
            Ok(f) => seq![f],
            Err(_) => Seq::empty(),
        }
    }
}

/// Latest-wins delivery: of any number of buffer payloads queued before
/// the worker wakes, provided the newest holds a full frame, exactly one
/// frame comes out of the wakeup — the newest payload's, tightly packed
/// and fixed up — never one per payload and never none.
pub proof fn lemma_latest_wins(fmt: NegotiatedFormat, payloads: Seq<Seq<u8>>, stride: int)
    requires
        fmt.wf(),
        payloads.len() >= 1,
        stride >= 4 * fmt.width,
        payloads.last().len() >= stride * fmt.height,
    ensures
        batch_frames_spec(fmt, payloads, stride).len() == 1,
        batch_frames_spec(fmt, payloads, stride)[0] == fixup_spec(
            pack_spec(payloads.last(), fmt.width as int, fmt.height as int, stride),
        ),
{
}

/// Drain one batch of buffer payloads latest-wins and process the survivor:
/// of `n` queued notifications at most one frame comes out — exactly one
/// when the newest payload is large enough — and every produced frame has
/// exactly `width * height * 4` bytes.
pub fn drain_and_process(fmt: &NegotiatedFormat, payloads: Vec<Vec<u8>>, stride: u32) -> (frames:
    Vec<Vec<u8>>)
    requires
        fmt.wf(),
    ensures
        frames@.map_values(|f: Vec<u8>| f@) =~= batch_frames_spec(
            *fmt,
            payloads@.map_values(|p: Vec<u8>| p@),
            stride as int,
        ),
        frames@.len() <= 1,
        forall|i: int| 0 <= i < frames@.len() ==> (#[trigger] frames@[i])@.len() == fmt.frame_len(),
{
    let ghost payload_views = payloads@.map_values(|p: Vec<u8>| p@);
    let newest = drain_latest(payloads);
    match newest {
        None => Vec::new(),
        Some(payload) => {
            proof {
                assert(payload_views.len() > 0);
                assert(payload@ =~= payload_views.last());
            }
            match process_frame(fmt, &payload, stride) {
                Ok(frame) => {
                    let mut frames: Vec<Vec<u8>> = Vec::new();
                    frames.push(frame);
                    frames
                },
                Err(_) => Vec::new(),
            }
        },
    }
}

/// One whole wakeup of the worker in `Streaming`: drain the queued buffer
/// payloads latest-wins, process the survivor, and hand the frame to the
/// channel.  At most one frame moves; when the channel is full nothing is
/// lost — the frame comes back so the caller can block and retry, which is
/// the pipeline's backpressure.  Every frame entering the channel has
/// exactly the negotiated `width * height * 4` bytes.
pub fn streaming_wakeup(
    fmt: &NegotiatedFormat,
    payloads: Vec<Vec<u8>>,
    stride: u32,
    channel: &mut FrameChannel,
) -> (unpushed: Option<Vec<u8>>)
    requires
        fmt.wf(),
        old(channel).wf(),
        old(channel).frame_len_spec() == fmt.frame_len(),
    ensures
        final(channel).wf(),
        final(channel).capacity_spec() == old(channel).capacity_spec(),
        final(channel).frame_len_spec() == old(channel).frame_len_spec(),
        ({
            let batch = batch_frames_spec(
                *fmt,
                payloads@.map_values(|p: Vec<u8>| p@),
                stride as int,
            );
            if batch.len() == 0 {
                &&& final(channel).contents() =~= old(channel).contents()
                &&& unpushed is None
            } else if old(channel).contents().len() < old(channel).capacity_spec() {
                &&& final(channel).contents() =~= old(channel).contents().push(batch[0])
                &&& unpushed is None
            } else {
                &&& final(channel).contents() =~= old(channel).contents()
                &&& (unpushed matches Some(f) && f@ =~= batch[0])
            }
        }),
{
    let mut frames = drain_and_process(fmt, payloads, stride);
    if frames.len() == 0 {
        return None;
    }
    let frame = frames.remove(0);
    match channel.try_push(frame) {
        Ok(()) => None,
        Err(frame) => Some(frame),
    }
}

} // verus!
