//! The stream supervisor: it owns the registry of per-camera control
//! senders, moves the selection with switch/next/previous, and runs the
//! idle-power policy that pauses every stream after inactivity and resumes
//! only the selected one on activity or an external wake.  Every operation
//! reports the control signals it sent, so its behaviour is stated — and
//! checked — over plain values.

use vstd::prelude::*;
use crate::channels::control_channel;
use crate::channels::send_control;
use crate::config::urls_unique;
use crate::config::Camera;
use crate::worker::DecodeSession;
use crate::IDLE_THRESHOLD_S;

verus! {

/// One control signal as the supervisor hands it out: pause or resume the
/// worker of the named camera.
pub struct ControlMsg {
    pub url: String,
    pub resume: bool,
}

/// The signals of a batch, reduced to what they say: address and flag.
pub open spec fn msg_views(msgs: Seq<ControlMsg>) -> Seq<(Seq<char>, bool)> {
    msgs.map(|i: int, m: ControlMsg| (m.url@, m.resume))
}

/// Whether some camera of the list carries this address.
pub open spec fn registered(cams: Seq<Camera>, url: Seq<char>) -> bool {
    exists|i: int| 0 <= i < cams.len() && cams[i].url@ == url
}

/// Whether position `i` holds the first camera with this address.
pub open spec fn first_index_of(cams: Seq<Camera>, url: Seq<char>, i: int) -> bool {
    &&& 0 <= i < cams.len()
    &&& cams[i].url@ == url
    &&& forall|j: int| 0 <= j < i ==> cams[j].url@ != url
}

/// The signals one switch sends: pause the old selection, then resume the
/// new one — each only when its camera is registered.
pub open spec fn spec_switch_views(cams: Seq<Camera>, old_sel: Seq<char>, new_sel: Seq<char>) -> Seq<
    (Seq<char>, bool),
> {
    let pause: Seq<(Seq<char>, bool)> = if registered(cams, old_sel) {
        seq![(old_sel, false)]
    } else {
        Seq::empty()
    };
    let resume: Seq<(Seq<char>, bool)> = if registered(cams, new_sel) {
        seq![(new_sel, true)]
    } else {
        Seq::empty()
    };
    pause + resume
}

/// One pause signal for every registered camera, in registry order.
pub open spec fn spec_pause_all_views(cams: Seq<Camera>) -> Seq<(Seq<char>, bool)> {
    Seq::new(cams.len(), |i: int| (cams[i].url@, false))
}

/// Seconds since the last qualifying event; a clock that appears to have
/// moved backwards counts as no time passed.
pub open spec fn spec_elapsed(last_activity_s: u64, now_s: u64) -> u64 {
    if now_s >= last_activity_s {
        (now_s - last_activity_s) as u64
    } else {
        0
    }
}

/// Whether the idle threshold has passed since the last qualifying event.
pub open spec fn idle_elapsed(last_activity_s: u64, threshold_s: u64, now_s: u64) -> bool {
    spec_elapsed(last_activity_s, now_s) >= threshold_s
}

/// Whether the idle policy fires: the threshold has passed and the pause
/// latch has not fired yet.
pub open spec fn idle_fires(is_down: bool, last_activity_s: u64, threshold_s: u64, now_s: u64) -> bool {
    !is_down && idle_elapsed(last_activity_s, threshold_s, now_s)
}

/// The registry: one control sender per camera, created at startup and
/// never recreated, owned by the supervisor alone.
pub struct Registry {
    /// The ordered camera descriptors; position 0 is the initial selection.
    pub cameras: Vec<Camera>,
    /// One control sender per camera, parallel to the descriptor list.
    pub senders: Vec<crossbeam_channel::Sender<bool>>,
}

impl Registry {
    /// One sender stands ready for every camera, and every camera carries
    /// a distinct address: the address is the identity a signal is routed
    /// by, so two alike would leave one worker unreachable.
    pub open spec fn wf(&self) -> bool {
        self.senders@.len() == self.cameras@.len() && urls_unique(self.cameras@)
    }

    /// Build the registry and one control receiver per camera; the worker
    /// of camera `i` owns receiver `i`.
    pub fn build(cameras: Vec<Camera>) -> (r: (Registry, Vec<crossbeam_channel::Receiver<bool>>))
        requires
            urls_unique(cameras@),
        ensures
            r.0.wf(),
            r.0.cameras@ == cameras@,
            r.1@.len() == cameras@.len(),
    {
        let mut senders: Vec<crossbeam_channel::Sender<bool>> = Vec::new();
        let mut receivers: Vec<crossbeam_channel::Receiver<bool>> = Vec::new();
        let mut i: usize = 0;
        while i < cameras.len()
            invariant
                i <= cameras@.len(),
                senders@.len() == i,
                receivers@.len() == i,
            decreases cameras@.len() - i,
        {
            let (tx, rx) = control_channel();
            senders.push(tx);
            receivers.push(rx);
            i = i + 1;
        }
        (Registry { cameras, senders }, receivers)
    }

    /// The position of the first camera with this address, if any.
    pub fn index_of(&self, url: &String) -> (r: Option<usize>)
        ensures
            match r {
                Some(i) => first_index_of(self.cameras@, url@, i as int),
                None => !registered(self.cameras@, url@),
            },
    {
        let mut i: usize = 0;
        while i < self.cameras.len()
            invariant
                i <= self.cameras@.len(),
                forall|j: int| 0 <= j < i ==> self.cameras@[j].url@ != url@,
            decreases self.cameras@.len() - i,
        {
            if self.cameras[i].url == *url {
                return Some(i);
            }
            i = i + 1;
        }
        None
    }

    /// Send each signal of the batch to its camera's worker.  A signal for
    /// an address that is not registered, or whose worker is gone, is
    /// silently dropped — a channel fault is never fatal to the sender.
    pub fn dispatch(&self, msgs: &Vec<ControlMsg>)
        requires
            self.wf(),
    {
        let mut k: usize = 0;
        while k < msgs.len()
            invariant
                self.wf(),
            decreases msgs@.len() - k,
        {
            match self.index_of(&msgs[k].url) {
                Some(i) => {
                    send_control(&self.senders[i], msgs[k].resume);
                },
                None => {},
            }
            k = k + 1;
        }
    }
}

/// The supervisor's whole state: the registry, the selection pointer, and
/// the idle policy's timer and latch.  The selection and each worker's own
/// active flag are connected only by control messages, never by shared
/// memory.
pub struct Supervisor {
    pub registry: Registry,
    /// The address of the camera the display currently wants.
    pub selected: String,
    /// The latch of the idle policy: set once everything was paused.
    pub is_down: bool,
    /// When the last qualifying event happened, in seconds of a monotonic
    /// clock supplied by the caller.
    pub last_activity_s: u64,
    /// Seconds of quiet after which the idle policy fires.
    pub idle_threshold_s: u64,
}

impl Supervisor {
    pub open spec fn wf(&self) -> bool {
        self.registry.wf()
    }

    /// The ordered camera descriptors.
    pub open spec fn cams(&self) -> Seq<Camera> {
        self.registry.cameras@
    }

    /// A supervisor over a fresh registry: the first camera is the initial
    /// selection, the idle timer starts now, nothing is paused yet.
    pub fn new(registry: Registry, now_s: u64) -> (s: Supervisor)
        requires
            registry.wf(),
            registry.cameras@.len() > 0,
        ensures
            s.wf(),
            s.registry == registry,
            s.cams() == registry.cameras@,
            s.selected@ == registry.cameras@[0].url@,
            !s.is_down,
            s.last_activity_s == now_s,
            s.idle_threshold_s == IDLE_THRESHOLD_S,
    {
        let selected = registry.cameras[0].url.clone();
        Supervisor {
            registry,
            selected,
            is_down: false,
            last_activity_s: now_s,
            idle_threshold_s: IDLE_THRESHOLD_S,
        }
    }

    /// Switch the display to another camera: pause the old selection's
    /// worker, resume the new one's, move the selection pointer.  The old
    /// worker does not stop instantly — it observes the pause at its next
    /// control poll.
    pub fn switch_stream(&mut self, new_url: &String) -> (msgs: Vec<ControlMsg>)
        requires
            old(self).wf(),
        ensures
            final(self).wf(),
            final(self).cams() == old(self).cams(),
            final(self).registry.senders@ == old(self).registry.senders@,
            final(self).selected@ == new_url@,
            final(self).is_down == old(self).is_down,
            final(self).last_activity_s == old(self).last_activity_s,
            final(self).idle_threshold_s == old(self).idle_threshold_s,
            msg_views(msgs@) == spec_switch_views(old(self).cams(), old(self).selected@, new_url@),
    {
        let mut msgs: Vec<ControlMsg> = Vec::new();
        match self.registry.index_of(&self.selected) {
            Some(_) => {
                msgs.push(ControlMsg { url: self.selected.clone(), resume: false });
            },
            None => {},
        }
        match self.registry.index_of(new_url) {
            Some(_) => {
                msgs.push(ControlMsg { url: new_url.clone(), resume: true });
            },
            None => {},
        }
        self.registry.dispatch(&msgs);
        self.selected = new_url.clone();
        proof {
            assert(msg_views(msgs@) =~= spec_switch_views(
                old(self).cams(),
                old(self).selected@,
                new_url@,
            ));
        }
        msgs
    }

    /// Rotate the selection forward over the ordered camera list, wrapping
    /// at the end; a selection that is not registered counts as position 0.
    pub fn next_camera(&mut self) -> (msgs: Vec<ControlMsg>)
        requires
            old(self).wf(),
            old(self).cams().len() > 0,
        ensures
            final(self).wf(),
            final(self).cams() == old(self).cams(),
            final(self).registry.senders@ == old(self).registry.senders@,
            final(self).is_down == old(self).is_down,
            final(self).last_activity_s == old(self).last_activity_s,
            final(self).idle_threshold_s == old(self).idle_threshold_s,
            msg_views(msgs@) == spec_switch_views(
                old(self).cams(),
                old(self).selected@,
                final(self).selected@,
            ),
            forall|i: int|
                first_index_of(old(self).cams(), old(self).selected@, i) ==> final(self).selected@
                    == old(self).cams()[(i + 1) % old(self).cams().len() as int].url@,
            !registered(old(self).cams(), old(self).selected@) ==> final(self).selected@ == old(
                self,
            ).cams()[1int % old(self).cams().len() as int].url@,
    {
        let n = self.registry.cameras.len();
        let idx = match self.registry.index_of(&self.selected) {
            Some(i) => i,
            None => 0,
        };
        let next = (idx + 1) % n;
        let url = self.registry.cameras[next].url.clone();
        self.switch_stream(&url)
    }

    /// Rotate the selection backward over the ordered camera list, wrapping
    /// at the start; a selection that is not registered counts as position 0.
    pub fn previous_camera(&mut self) -> (msgs: Vec<ControlMsg>)
        requires
            old(self).wf(),
            old(self).cams().len() > 0,
        ensures
            final(self).wf(),
            final(self).cams() == old(self).cams(),
            final(self).registry.senders@ == old(self).registry.senders@,
            final(self).is_down == old(self).is_down,
            final(self).last_activity_s == old(self).last_activity_s,
            final(self).idle_threshold_s == old(self).idle_threshold_s,
            msg_views(msgs@) == spec_switch_views(
                old(self).cams(),
                old(self).selected@,
                final(self).selected@,
            ),
            forall|i: int|
                first_index_of(old(self).cams(), old(self).selected@, i) ==> final(self).selected@
                    == old(self).cams()[if i == 0 {
                    old(self).cams().len() - 1
                } else {
                    i - 1
                }].url@,
            !registered(old(self).cams(), old(self).selected@) ==> final(self).selected@ == old(
                self,
            ).cams()[old(self).cams().len() - 1].url@,
    {
        let n = self.registry.cameras.len();
        let idx = match self.registry.index_of(&self.selected) {
            Some(i) => i,
            None => 0,
        };
        let prev = if idx == 0 {
            n - 1
        } else {
            idx - 1
        };
        let url = self.registry.cameras[prev].url.clone();
        self.switch_stream(&url)
    }

    /// One tick of the idle policy.  When no qualifying event has happened
    /// for the threshold and the latch is clear, pause every registered
    /// camera; the latch then stops every later tick from sending anything,
    /// so each worker receives the pause exactly once per idle period.
    pub fn idle_tick(&mut self, now_s: u64) -> (msgs: Vec<ControlMsg>)
        requires
            old(self).wf(),
        ensures
            final(self).wf(),
            final(self).cams() == old(self).cams(),
            final(self).registry.senders@ == old(self).registry.senders@,
            final(self).selected@ == old(self).selected@,
            final(self).last_activity_s == old(self).last_activity_s,
            final(self).idle_threshold_s == old(self).idle_threshold_s,
            final(self).is_down == (old(self).is_down || idle_fires(
                old(self).is_down,
                old(self).last_activity_s,
                old(self).idle_threshold_s,
                now_s,
            )),
            msg_views(msgs@) == if idle_fires(
                old(self).is_down,
                old(self).last_activity_s,
                old(self).idle_threshold_s,
                now_s,
            ) {
                spec_pause_all_views(old(self).cams())
            } else {
                Seq::<(Seq<char>, bool)>::empty()
            },
    {
        let mut msgs: Vec<ControlMsg> = Vec::new();
        let elapsed = if now_s >= self.last_activity_s {
            now_s - self.last_activity_s
        } else {
            0
        };
        if elapsed >= self.idle_threshold_s && !self.is_down {
            let mut i: usize = 0;
            while i < self.registry.cameras.len()
                invariant
                    i <= self.registry.cameras@.len(),
                    msgs@.len() == i,
                    forall|j: int|
                        0 <= j < i ==> msgs@[j].url@ == self.registry.cameras@[j].url@
                            && !msgs@[j].resume,
                decreases self.registry.cameras@.len() - i,
            {
                msgs.push(ControlMsg { url: self.registry.cameras[i].url.clone(), resume: false });
                i = i + 1;
            }
            self.is_down = true;
            self.registry.dispatch(&msgs);
            proof {
                assert(msg_views(msgs@) =~= spec_pause_all_views(old(self).cams()));
            }
        } else {
            proof {
                assert(msg_views(msgs@) =~= Seq::<(Seq<char>, bool)>::empty());
            }
        }
        msgs
    }

    /// An external wake event: reset the idle timer, and when the system is
    /// paused resume only the selected camera — every other camera stays
    /// paused.  A duplicate wake is harmless: resuming is idempotent.
    pub fn wake(&mut self, now_s: u64) -> (msgs: Vec<ControlMsg>)
        requires
            old(self).wf(),
        ensures
            final(self).wf(),
            final(self).cams() == old(self).cams(),
            final(self).registry.senders@ == old(self).registry.senders@,
            final(self).selected@ == old(self).selected@,
            final(self).idle_threshold_s == old(self).idle_threshold_s,
            final(self).last_activity_s == now_s,
            old(self).is_down && registered(old(self).cams(), old(self).selected@) ==> {
                &&& msg_views(msgs@) == seq![(old(self).selected@, true)]
                &&& !final(self).is_down
            },
            !(old(self).is_down && registered(old(self).cams(), old(self).selected@)) ==> {
                &&& msg_views(msgs@) == Seq::<(Seq<char>, bool)>::empty()
                &&& final(self).is_down == old(self).is_down
            },
    {
        self.last_activity_s = now_s;
        let mut msgs: Vec<ControlMsg> = Vec::new();
        if self.is_down {
            match self.registry.index_of(&self.selected) {
                Some(_) => {
                    msgs.push(ControlMsg { url: self.selected.clone(), resume: true });
                    self.is_down = false;
                    self.registry.dispatch(&msgs);
                },
                None => {},
            }
        }
        proof {
            if old(self).is_down && registered(old(self).cams(), old(self).selected@) {
                assert(msg_views(msgs@) =~= seq![(old(self).selected@, true)]);
            } else {
                assert(msg_views(msgs@) =~= Seq::<(Seq<char>, bool)>::empty());
            }
        }
        msgs
    }

    /// A local input event: when the idle threshold had already passed,
    /// resume the selected camera and clear the latch; either way the idle
    /// timer restarts now.
    pub fn note_activity(&mut self, now_s: u64) -> (msgs: Vec<ControlMsg>)
        requires
            old(self).wf(),
        ensures
            final(self).wf(),
            final(self).cams() == old(self).cams(),
            final(self).registry.senders@ == old(self).registry.senders@,
            final(self).selected@ == old(self).selected@,
            final(self).idle_threshold_s == old(self).idle_threshold_s,
            final(self).last_activity_s == now_s,
            idle_elapsed(old(self).last_activity_s, old(self).idle_threshold_s, now_s)
                && registered(old(self).cams(), old(self).selected@) ==> {
                &&& msg_views(msgs@) == seq![(old(self).selected@, true)]
                &&& !final(self).is_down
            },
            !(idle_elapsed(old(self).last_activity_s, old(self).idle_threshold_s, now_s)
                && registered(old(self).cams(), old(self).selected@)) ==> {
                &&& msg_views(msgs@) == Seq::<(Seq<char>, bool)>::empty()
                &&& final(self).is_down == old(self).is_down
            },
    {
        let mut msgs: Vec<ControlMsg> = Vec::new();
        let elapsed = if now_s >= self.last_activity_s {
            now_s - self.last_activity_s
        } else {
            0
        };
        if elapsed >= self.idle_threshold_s {
            match self.registry.index_of(&self.selected) {
                Some(_) => {
                    msgs.push(ControlMsg { url: self.selected.clone(), resume: true });
                    self.is_down = false;
                    self.registry.dispatch(&msgs);
                },
                None => {},
            }
        }
        self.last_activity_s = now_s;
        proof {
            if idle_elapsed(old(self).last_activity_s, old(self).idle_threshold_s, now_s)
                && registered(old(self).cams(), old(self).selected@) {
                assert(msg_views(msgs@) =~= seq![(old(self).selected@, true)]);
            } else {
                assert(msg_views(msgs@) =~= Seq::<(Seq<char>, bool)>::empty());
            }
        }
        msgs
    }
}

/// After a switch between two registered cameras the signal run is exactly
/// a pause for the old selection followed by a resume for the new one; a
/// worker that observes the pause at its next control poll is inactive, and
/// one that observes the resume is active.
pub proof fn lemma_switch_observed(
    cams: Seq<Camera>,
    old_sel: Seq<char>,
    new_sel: Seq<char>,
    w_old: DecodeSession,
    w_new: DecodeSession,
)
    requires
        registered(cams, old_sel),
        registered(cams, new_sel),
    ensures
        spec_switch_views(cams, old_sel, new_sel) =~= seq![(old_sel, false), (new_sel, true)],
        !w_old.spec_after_control(Some(false)).active,
        w_new.spec_after_control(Some(true)).active,
{
}

/// A wake while paused touches only the selection: the batch it sends
/// names no other camera, a worker that receives nothing stays paused, and
/// the selected worker that observes the resume is active again.
pub proof fn lemma_wake_resumes_only_selection(
    sel: Seq<char>,
    w_other: DecodeSession,
    w_sel: DecodeSession,
)
    requires
        !w_other.active,
        !w_sel.active,
    ensures
        forall|k: int|
            0 <= k < seq![(sel, true)].len() ==> (#[trigger] seq![(sel, true)][k]).0 == sel,
        !w_other.spec_after_control(None).active,
        w_sel.spec_after_control(Some(true)).active,
{
}

/// The idle pause is sent exactly once per idle period: the tick that
/// fires sets the latch, and the policy cannot fire again while the latch
/// is set, whatever time has passed — only a qualifying event, which clears
/// the latch, re-arms it.
pub proof fn lemma_idle_pause_exactly_once(
    is_down: bool,
    last_activity_s: u64,
    threshold_s: u64,
    now1_s: u64,
    now2_s: u64,
)
    requires
        idle_fires(is_down, last_activity_s, threshold_s, now1_s),
    ensures
        !idle_fires(true, last_activity_s, threshold_s, now2_s),
{
}

} // verus!
