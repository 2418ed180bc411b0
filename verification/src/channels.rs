//! The two channel kinds the system is built on: one unbounded control
//! channel per camera (latest value wins) and one bounded frame channel
//! shared by all workers (full means drop).  The channels come from
//! crossbeam; every call into it sits behind a small trusted wrapper, and
//! nothing is claimed about a channel's contents — two ends live on
//! different threads, so the verified logic takes whatever was received as
//! an argument instead.

use vstd::prelude::*;
use crate::frame::Frame;
use crate::CONTROL_COALESCE_LIMIT;
use crate::FRAME_CHANNEL_CAPACITY;

verus! {

#[verifier::external_type_specification]
#[verifier::external_body]
#[verifier::reject_recursive_types(T)]
pub struct ExSender<T>(crossbeam_channel::Sender<T>);

#[verifier::external_type_specification]
#[verifier::external_body]
#[verifier::reject_recursive_types(T)]
pub struct ExReceiver<T>(crossbeam_channel::Receiver<T>);

/// Relies on crossbeam_channel::unbounded: a channel of unlimited capacity,
/// so a control send never blocks and never drops.
#[verifier::external_body]
fn unbounded_control() -> (chan: (crossbeam_channel::Sender<bool>, crossbeam_channel::Receiver<
    bool,
>)) {
    crossbeam_channel::unbounded()
}

/// Relies on crossbeam_channel::bounded: a channel that holds at most `cap`
/// messages; `try_send` on a full one fails instead of blocking.  The
/// bounds keep clear of the capacities on which crossbeam panics, and of
/// the zero capacity that would make the channel a rendezvous.
#[verifier::external_body]
fn bounded_frames(cap: usize) -> (chan: (crossbeam_channel::Sender<Frame>,
    crossbeam_channel::Receiver<Frame>))
    requires
        1 <= cap < 0x4000000000000000,
{
    crossbeam_channel::bounded(cap)
}

/// Relies on crossbeam_channel::Sender::try_send: delivers without ever
/// blocking; a send to a closed or full channel is a silent no-op here, as
/// the control protocol asks.  The library's control channels are
/// unbounded, so only a closed one can refuse.
#[verifier::external_body]
pub(crate) fn send_control(tx: &crossbeam_channel::Sender<bool>, value: bool) {
    let _ = tx.try_send(value);
}

/// Relies on crossbeam_channel::Receiver::try_recv: returns a pending
/// message without blocking; an empty or closed channel yields none.
#[verifier::external_body]
fn try_recv_control(rx: &crossbeam_channel::Receiver<bool>) -> (r: Option<bool>) {
    rx.try_recv().ok()
}

/// Relies on crossbeam_channel::Sender::try_send: hands the frame over
/// unless the channel is full or closed; the result says whether it was
/// accepted.
#[verifier::external_body]
fn try_send_frame(tx: &crossbeam_channel::Sender<Frame>, frame: Frame) -> (accepted: bool) {
    tx.try_send(frame).is_ok()
}

/// Relies on crossbeam_channel::Receiver::try_recv: returns a pending frame
/// without blocking; an empty or closed channel yields none.
#[verifier::external_body]
pub(crate) fn try_recv_frame(rx: &crossbeam_channel::Receiver<Frame>) -> (r: Option<Frame>) {
    rx.try_recv().ok()
}

/// Relies on crossbeam_channel::Sender::clone: another handle on the same
/// channel, so every worker can publish into the one shared frame channel.
#[verifier::external_body]
fn clone_frame_sender(tx: &crossbeam_channel::Sender<Frame>) -> (r: crossbeam_channel::Sender<
    Frame,
>) {
    tx.clone()
}

/// Relies on crossbeam_channel::unbounded: the wake channel between the
/// event monitor and the supervisor; duplicate wake signals are harmless.
#[verifier::external_body]
pub fn wake_channel() -> (chan: (crossbeam_channel::Sender<()>, crossbeam_channel::Receiver<()>)) {
    crossbeam_channel::unbounded()
}

/// Relies on crossbeam_channel::Sender::try_send: emits one wake signal
/// without ever blocking; a closed or full channel makes it a silent
/// no-op.  The library's wake channel is unbounded, so only a closed one
/// can refuse.
#[verifier::external_body]
pub fn send_wake(tx: &crossbeam_channel::Sender<()>) {
    let _ = tx.try_send(());
}

/// Relies on crossbeam_channel::Receiver::try_recv: whether a wake signal
/// was pending, without blocking.
#[verifier::external_body]
pub fn poll_wake(rx: &crossbeam_channel::Receiver<()>) -> (woken: bool) {
    rx.try_recv().is_ok()
}

/// One fresh control channel, for exactly one camera's worker.
pub fn control_channel() -> (chan: (crossbeam_channel::Sender<bool>, crossbeam_channel::Receiver<
    bool,
>)) {
    unbounded_control()
}

/// The shared frame channel: one sender handle per worker, one receiver for
/// the single display consumer.  Its small fixed capacity realises the drop
/// policy — frames are a decayable latest value, not a log.
pub fn frame_channel(workers: usize) -> (chan: (Vec<crossbeam_channel::Sender<Frame>>,
    crossbeam_channel::Receiver<Frame>))
    ensures
        chan.0@.len() == workers,
{
    let (tx, rx) = bounded_frames(FRAME_CHANNEL_CAPACITY);
    let mut senders: Vec<crossbeam_channel::Sender<Frame>> = Vec::new();
    let mut i: usize = 0;
    while i < workers
        invariant
            i <= workers,
            senders@.len() == i,
        decreases workers - i,
    {
        senders.push(clone_frame_sender(&tx));
        i = i + 1;
    }
    (senders, rx)
}

/// Publish one frame without blocking; a full channel drops it rather than
/// stalling the worker.  Returns whether the frame was accepted.
pub fn publish_frame(tx: &crossbeam_channel::Sender<Frame>, frame: Frame) -> (accepted: bool) {
    try_send_frame(tx, frame)
}

/// The value the control protocol keeps out of one drained run of queued
/// signals: the most recent one — last write wins, intermediate missed
/// transitions are coalesced.  An empty run leaves the worker as it was.
pub fn latest_of(received: &Vec<bool>) -> (signal: Option<bool>)
    ensures
        signal == if received@.len() == 0 {
            None::<bool>
        } else {
            Some(received@.last())
        },
{
    if received.len() == 0 {
        None
    } else {
        Some(received[received.len() - 1])
    }
}

/// Read the worker's control channel without blocking and keep only the
/// most recent unread value of the drained run, as `latest_of` states.
/// The drain is bounded so one poll stays finite even while a sender is
/// racing it.
pub fn poll_latest_control(rx: &crossbeam_channel::Receiver<bool>) -> (signal: Option<bool>) {
    let mut received: Vec<bool> = Vec::new();
    let mut i: usize = 0;
    while i < CONTROL_COALESCE_LIMIT
        invariant
            i <= CONTROL_COALESCE_LIMIT,
        decreases CONTROL_COALESCE_LIMIT - i,
    {
        match try_recv_control(rx) {
            Some(v) => {
                received.push(v);
            },
            None => {
                break ;
            },
        }
        i = i + 1;
    }
    latest_of(&received)
}

} // verus!
