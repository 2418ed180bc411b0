//! The per-camera decode worker's state machine: connect, wait for a
//! keyframe, stream, pause and resume, reconnect on failure.  The worker's
//! loop itself runs outside (it blocks on its own network input); every
//! decision it takes — what to do with a control signal, with a packet, with
//! a failed connection — is a function here, with its contract.

use vstd::prelude::*;
use crate::RECONNECT_DELAY_S;

verus! {

/// What a worker knows about one packet pulled from its stream.
#[derive(Clone, Copy, PartialEq, Eq, Structural, Debug)]
pub struct PacketInfo {
    /// The packet belongs to the stream's video track.
    pub is_video: bool,
    /// The packet is marked as a keyframe.
    pub is_key: bool,
}

/// What the worker does with one packet.
#[derive(Clone, Copy, PartialEq, Eq, Structural, Debug)]
pub enum PacketAction {
    /// The packet is not part of the video track: ignore it.
    Ignore,
    /// Paused: consume the packet so the stream stays live, decode nothing.
    Drain,
    /// A keyframe is required and this is none: discard the packet.
    AwaitKeyframe,
    /// Feed the packet to the decoder and publish every frame it yields.
    Decode,
}

/// The private state of one camera's decode worker.  Exactly one session
/// exists per camera, owned by its worker alone; all mutation happens
/// through the steps below.
#[derive(Clone, Copy, PartialEq, Eq, Structural, Debug)]
pub struct DecodeSession {
    /// Whether the worker currently decodes and publishes frames.
    pub active: bool,
    /// Whether decode is suspended until the next keyframe arrives.  A
    /// session enters this wait on every connect and on every resume from
    /// pause: decoding from mid-GOP would publish corrupted frames.
    pub waiting_for_keyframe: bool,
}

impl DecodeSession {
    /// The state a control signal leaves the session in: the latest value
    /// overwrites `active`, and a paused-to-active transition always
    /// re-arms the keyframe wait, so that decode never restarts mid-GOP.
    pub open spec fn spec_after_control(self, signal: Option<bool>) -> DecodeSession {
        match signal {
            Option::Some(v) => DecodeSession {
                active: v,
                waiting_for_keyframe: if v && !self.active {
                    true
                } else {
                    self.waiting_for_keyframe
                },
            },
            Option::None => self,
        }
    }

    /// What the session does with one packet.
    pub open spec fn spec_packet_action(self, pkt: PacketInfo) -> PacketAction {
        if !pkt.is_video {
            PacketAction::Ignore
        } else if !self.active {
            PacketAction::Drain
        } else if self.waiting_for_keyframe && !pkt.is_key {
            PacketAction::AwaitKeyframe
        } else {
            PacketAction::Decode
        }
    }

    /// The state one packet leaves the session in: the keyframe wait ends
    /// exactly when a packet is decoded.
    pub open spec fn spec_after_packet(self, pkt: PacketInfo) -> DecodeSession {
        if self.spec_packet_action(pkt) == PacketAction::Decode {
            DecodeSession { waiting_for_keyframe: false, ..self }
        } else {
            self
        }
    }

    /// A fresh session, waiting for its first keyframe.  The initially
    /// selected camera starts active; every other one starts paused.
    pub fn new(active: bool) -> (s: DecodeSession)
        ensures
            s.active == active,
            s.waiting_for_keyframe,
    {
        DecodeSession { active, waiting_for_keyframe: true }
    }

    /// Entering a (re)opened connection always re-arms the keyframe wait;
    /// whether the worker is active is untouched, so a paused camera stays
    /// paused across a reconnect.
    pub fn begin_connection(&mut self)
        ensures
            final(self).active == old(self).active,
            final(self).waiting_for_keyframe,
    {
        self.waiting_for_keyframe = true;
    }

    /// Observe the latest value read from this worker's control channel,
    /// or none when the channel held nothing this iteration.
    pub fn poll_control(&mut self, signal: Option<bool>)
        ensures
            *final(self) == old(self).spec_after_control(signal),
    {
        match signal {
            Option::Some(v) => {
                if v && !self.active {
                    self.waiting_for_keyframe = true;
                }
                self.active = v;
            },
            Option::None => {},
        }
    }

    /// Decide what to do with one packet, and step the session.
    pub fn on_packet(&mut self, pkt: &PacketInfo) -> (a: PacketAction)
        ensures
            a == old(self).spec_packet_action(*pkt),
            *final(self) == old(self).spec_after_packet(*pkt),
    {
        if !pkt.is_video {
            PacketAction::Ignore
        } else if !self.active {
            PacketAction::Drain
        } else if self.waiting_for_keyframe && !pkt.is_key {
            PacketAction::AwaitKeyframe
        } else {
            self.waiting_for_keyframe = false;
            PacketAction::Decode
        }
    }

    /// React to a failed attempt to open the stream: keep the session as it
    /// is and try again after the fixed backoff.  The retry count is
    /// unbounded — a worker never gives up on its camera.
    pub fn on_connect_failure(&mut self) -> (retry_in_s: u64)
        ensures
            retry_in_s == RECONNECT_DELAY_S,
            *final(self) == *old(self),
    {
        RECONNECT_DELAY_S
    }

    /// React to an unrecoverable stream fault or end-of-stream: the session
    /// is torn down and reopened after the same fixed backoff.
    pub fn on_stream_error(&mut self) -> (retry_in_s: u64)
        ensures
            retry_in_s == RECONNECT_DELAY_S,
            *final(self) == *old(self),
    {
        RECONNECT_DELAY_S
    }
}

/// The actions a session takes over a run of packets during which no
/// further control signal arrives.
pub open spec fn run_actions(s: DecodeSession, pkts: Seq<PacketInfo>) -> Seq<PacketAction>
    decreases pkts.len(),
{
    if pkts.len() == 0 {
        Seq::empty()
    } else {
        seq![s.spec_packet_action(pkts[0])] + run_actions(s.spec_after_packet(pkts[0]), pkts.drop_first())
    }
}

/// The run has as many actions as packets.
pub proof fn lemma_run_actions_len(s: DecodeSession, pkts: Seq<PacketInfo>)
    ensures
        run_actions(s, pkts).len() == pkts.len(),
    decreases pkts.len(),
{
    if pkts.len() > 0 {
        lemma_run_actions_len(s.spec_after_packet(pkts[0]), pkts.drop_first());
    }
}

/// While the keyframe wait is armed, the first packet a session decodes in
/// any run is a keyframe: no frame is published from a mid-GOP position.
pub proof fn lemma_first_decode_is_keyframe(s: DecodeSession, pkts: Seq<PacketInfo>, i: int)
    requires
        s.waiting_for_keyframe,
        0 <= i < pkts.len(),
        run_actions(s, pkts)[i] == PacketAction::Decode,
        forall|j: int| 0 <= j < i ==> run_actions(s, pkts)[j] != PacketAction::Decode,
    ensures
        pkts[i].is_key,
    decreases pkts.len(),
{
    lemma_run_actions_len(s, pkts);
    if i == 0 {
        // The head action is Decode while the wait is armed, which the
        // action function only allows on a keyframe.
        assert(s.spec_packet_action(pkts[0]) == PacketAction::Decode);
    } else {
        let s2 = s.spec_after_packet(pkts[0]);
        let rest = pkts.drop_first();
        assert(run_actions(s, pkts)[0] != PacketAction::Decode);
        // A packet that is not decoded leaves the wait armed.
        assert(s2.waiting_for_keyframe);
        assert(forall|j: int|
            0 <= j < i - 1 ==> run_actions(s2, rest)[j] == run_actions(s, pkts)[j + 1]);
        lemma_first_decode_is_keyframe(s2, rest, i - 1);
    }
}

/// A worker that transitions from paused back to active decodes nothing
/// before the next keyframe: the first frame it publishes after the resume
/// originates from one.
pub proof fn lemma_no_decode_before_keyframe_after_resume(
    paused: DecodeSession,
    pkts: Seq<PacketInfo>,
    i: int,
)
    requires
        !paused.active,
        0 <= i < pkts.len(),
        run_actions(paused.spec_after_control(Option::Some(true)), pkts)[i] == PacketAction::Decode,
        forall|j: int|
            0 <= j < i ==> run_actions(paused.spec_after_control(Option::Some(true)), pkts)[j]
                != PacketAction::Decode,
    ensures
        pkts[i].is_key,
{
    let resumed = paused.spec_after_control(Option::Some(true));
    assert(resumed.waiting_for_keyframe);
    lemma_first_decode_is_keyframe(resumed, pkts, i);
}

} // verus!
