use cctv_core::monitor::events_url;
use cctv_core::monitor::monitor_step;
use cctv_core::monitor::should_wake;
use cctv_core::monitor::AiEvents;
use cctv_core::monitor::AlarmStatus;
use cctv_core::monitor::EventRecord;
use cctv_core::monitor::EventValue;
use cctv_core::monitor::MonitorAction;
use cctv_core::monitor::PollOutcome;
use cctv_core::MONITOR_BACKOFF_MS;
use cctv_core::MONITOR_POLL_DELAY_MS;

fn record(visitor: Option<i32>, people: Option<i32>) -> EventRecord {
    EventRecord {
        value: EventValue {
            ai: people.map(|p| AiEvents { people: Some(AlarmStatus { alarm_state: p }) }),
            md: None,
            visitor: visitor.map(|v| AlarmStatus { alarm_state: v }),
        },
    }
}

#[test]
fn doorbell_press_wakes() {
    assert!(should_wake(&vec![record(Some(1), None)]));
}

#[test]
fn ai_person_detection_wakes() {
    assert!(should_wake(&vec![record(None, Some(1))]));
}

#[test]
fn absent_flags_default_to_quiet() {
    assert!(!should_wake(&vec![record(None, None)]));
    assert!(!should_wake(&vec![record(Some(0), Some(0))]));
    let bare = EventRecord {
        value: EventValue { ai: Some(AiEvents { people: None }), md: None, visitor: None },
    };
    assert!(!should_wake(&vec![bare]));
}

#[test]
fn an_empty_record_list_is_quiet() {
    assert!(!should_wake(&Vec::new()));
}

#[test]
fn only_the_first_record_is_consulted() {
    assert!(!should_wake(&vec![record(Some(0), None), record(Some(1), None)]));
    assert!(should_wake(&vec![record(Some(1), None), record(Some(0), None)]));
}

#[test]
fn connection_failure_backs_off_longer() {
    let a: MonitorAction = monitor_step(&PollOutcome::ConnectionFailure);
    assert!(!a.wake);
    assert_eq!(a.delay_ms, MONITOR_BACKOFF_MS);
}

#[test]
fn parse_failure_is_no_event_this_cycle() {
    let a = monitor_step(&PollOutcome::ParseFailure);
    assert!(!a.wake);
    assert_eq!(a.delay_ms, MONITOR_POLL_DELAY_MS);
}

#[test]
fn parsed_events_wake_exactly_when_the_records_say_so() {
    let a = monitor_step(&PollOutcome::Events(vec![record(Some(1), None)]));
    assert!(a.wake);
    assert_eq!(a.delay_ms, MONITOR_POLL_DELAY_MS);
    let b = monitor_step(&PollOutcome::Events(vec![record(Some(0), Some(0))]));
    assert!(!b.wake);
    assert_eq!(b.delay_ms, MONITOR_POLL_DELAY_MS);
}

#[test]
fn the_status_endpoint_embeds_address_and_credential() {
    let url = events_url("10.0.0.9", "hunter2");
    assert_eq!(url, "http://10.0.0.9/cgi-bin/api.cgi?cmd=GetEvents&user=admin&password=hunter2");
}
