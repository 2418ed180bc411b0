//! The event monitor's decisions.  The monitor polls an alarm source over
//! HTTP; the transport and the JSON parsing stay outside and hand in plain
//! values.  Here stands what those values mean: which records raise the
//! wake signal, and how the loop paces itself after success, a malformed
//! payload, or a connection fault.

use vstd::prelude::*;
use vstd::string::StringExecFns;
use crate::MONITOR_BACKOFF_MS;
use crate::MONITOR_POLL_DELAY_MS;

verus! {

/// One binary alarm indicator; it is asserted when its state is 1.
pub struct AlarmStatus {
    pub alarm_state: i32,
}

/// The AI detections of one record; only the people indicator is read.
pub struct AiEvents {
    pub people: Option<AlarmStatus>,
}

/// The nested alarm flags of one event record.  Every part is optional,
/// and an absent part counts as not asserted.
pub struct EventValue {
    pub ai: Option<AiEvents>,
    pub md: Option<AlarmStatus>,
    pub visitor: Option<AlarmStatus>,
}

/// One event record of the alarm source's status response.
pub struct EventRecord {
    pub value: EventValue,
}

impl EventRecord {
    /// The visitor (doorbell) indicator, defaulting to 0 when absent.
    pub open spec fn spec_visitor_state(&self) -> i32 {
        match self.value.visitor {
            Some(s) => s.alarm_state,
            None => 0,
        }
    }

    /// The AI people indicator, nested two levels deep, defaulting to 0
    /// when any level is absent.
    pub open spec fn spec_people_state(&self) -> i32 {
        match self.value.ai {
            Some(ai) => match ai.people {
                Some(p) => p.alarm_state,
                None => 0,
            },
            None => 0,
        }
    }

    /// Whether this record asserts either binary indicator.
    pub open spec fn spec_wakes(&self) -> bool {
        self.spec_visitor_state() == 1 || self.spec_people_state() == 1
    }

    /// The visitor (doorbell) indicator, defaulting to 0 when absent.
    pub fn visitor_state(&self) -> (r: i32)
        ensures
            r == self.spec_visitor_state(),
    {
        match &self.value.visitor {
            Some(s) => s.alarm_state,
            None => 0,
        }
    }

    /// The AI people indicator, defaulting to 0 when any level is absent.
    pub fn people_state(&self) -> (r: i32)
        ensures
            r == self.spec_people_state(),
    {
        match &self.value.ai {
            Some(ai) => match &ai.people {
                Some(p) => p.alarm_state,
                None => 0,
            },
            None => 0,
        }
    }

    /// Whether this record asserts either binary indicator.
    pub fn wakes(&self) -> (r: bool)
        ensures
            r == self.spec_wakes(),
    {
        self.visitor_state() == 1 || self.people_state() == 1
    }
}

/// Whether a successfully parsed status response raises the wake signal:
/// its first record asserts the doorbell or the AI people indicator.
pub open spec fn spec_should_wake(records: Seq<EventRecord>) -> bool {
    records.len() > 0 && records[0].spec_wakes()
}

/// Whether this status response raises the wake signal.
pub fn should_wake(records: &Vec<EventRecord>) -> (r: bool)
    ensures
        r == spec_should_wake(records@),
{
    if records.len() > 0 {
        records[0].wakes()
    } else {
        false
    }
}

/// What one poll of the alarm source produced, as the transport reports it.
pub enum PollOutcome {
    /// The request failed or no response arrived.
    ConnectionFailure,
    /// A response arrived but was not a well-formed list of records.
    ParseFailure,
    /// A well-formed list of event records.
    Events(Vec<EventRecord>),
}

/// What the monitor does next: whether to emit the wake signal (and wake
/// the display), and how long to sleep before the next poll.
pub struct MonitorAction {
    pub wake: bool,
    pub delay_ms: u64,
}

/// Decide one iteration of the polling loop.  A connection fault earns the
/// longer backoff; a malformed payload is no event this cycle and keeps the
/// short pace; a parsed response wakes exactly when its records say so.
/// The loop itself never terminates, so every outcome carries a delay.
pub fn monitor_step(outcome: &PollOutcome) -> (a: MonitorAction)
    ensures
        match outcome {
            PollOutcome::ConnectionFailure => !a.wake && a.delay_ms == MONITOR_BACKOFF_MS,
            PollOutcome::ParseFailure => !a.wake && a.delay_ms == MONITOR_POLL_DELAY_MS,
            PollOutcome::Events(records) => a.wake == spec_should_wake(records@) && a.delay_ms
                == MONITOR_POLL_DELAY_MS,
        },
{
    match outcome {
        PollOutcome::ConnectionFailure => MonitorAction { wake: false, delay_ms: MONITOR_BACKOFF_MS },
        PollOutcome::ParseFailure => MonitorAction { wake: false, delay_ms: MONITOR_POLL_DELAY_MS },
        PollOutcome::Events(records) => MonitorAction {
            wake: should_wake(records),
            delay_ms: MONITOR_POLL_DELAY_MS,
        },
    }
}

/// The alarm source's status endpoint for the given address and credential.
pub fn events_url(bell_ip: &str, password: &str) -> (url: String)
    ensures
        url@ == "http://"@ + bell_ip@ + "/cgi-bin/api.cgi?cmd=GetEvents&user=admin&password="@
            + password@,
{
    let mut url = String::new();
    url.append("http://");
    url.append(bell_ip);
    url.append("/cgi-bin/api.cgi?cmd=GetEvents&user=admin&password=");
    url.append(password);
    proof {
        assert(url@ =~= "http://"@ + bell_ip@
            + "/cgi-bin/api.cgi?cmd=GetEvents&user=admin&password="@ + password@);
    }
    url
}

} // verus!
