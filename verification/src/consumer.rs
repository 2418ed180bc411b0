//! The display consumer's side of the frame channel: drain everything that
//! is pending and keep only the newest frame of the currently selected
//! camera.  Frames for other cameras, and older frames of the selected one,
//! are stale the moment a newer one exists and are discarded.

use vstd::prelude::*;
use crate::channels::try_recv_frame;
use crate::frame::Frame;
use crate::FRAME_CHANNEL_CAPACITY;

verus! {

/// Keep, out of a batch of frames in publish order, the newest one tagged
/// with the selected camera — never an older one, never one from another
/// camera — and none when the batch holds no match.
pub fn select_latest(frames: Vec<Frame>, selected: &String) -> (r: Option<Frame>)
    ensures
        match r {
            Some(f) => {
                &&& f.url@ == selected@
                &&& exists|i: int|
                    0 <= i < frames@.len() && frames@[i] == f && (forall|j: int|
                        i < j < frames@.len() ==> frames@[j].url@ != selected@)
            },
            None => forall|i: int| 0 <= i < frames@.len() ==> frames@[i].url@ != selected@,
        },
{
    let mut rest = frames;
    loop
        invariant
            rest@.len() <= frames@.len(),
            rest@ == frames@.subrange(0, rest@.len() as int),
            forall|j: int|
                rest@.len() <= j < frames@.len() ==> frames@[j].url@ != selected@,
        decreases rest@.len(),
    {
        match rest.pop() {
            Some(f) => {
                proof {
                    assert(rest@ =~= frames@.subrange(0, rest@.len() as int));
                }
                if f.url == *selected {
                    proof {
                        assert(frames@[rest@.len() as int] == f);
                    }
                    return Some(f);
                }
            },
            None => {
                return None;
            },
        }
    }
}

/// Drain the frame channel and return the newest pending frame of the
/// selected camera, or none when nothing for it was pending.  One poll
/// cycle empties what is currently queued; the drain is bounded by the
/// channel's capacity so the consumer never chases racing producers.
pub fn drain_latest(rx: &crossbeam_channel::Receiver<Frame>, selected: &String) -> (r: Option<
    Frame,
>)
    ensures
        match r {
            Some(f) => f.url@ == selected@,
            None => true,
        },
{
    let mut pending: Vec<Frame> = Vec::new();
    let mut i: usize = 0;
    while i < FRAME_CHANNEL_CAPACITY
        invariant
            i <= FRAME_CHANNEL_CAPACITY,
        decreases FRAME_CHANNEL_CAPACITY - i,
    {
        match try_recv_frame(rx) {
            Some(f) => {
                pending.push(f);
            },
            None => {
                break ;
            },
        }
        i = i + 1;
    }
    select_latest(pending, selected)
}

} // verus!
