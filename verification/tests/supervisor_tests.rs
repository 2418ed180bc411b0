use cctv_core::config::Camera;
use cctv_core::supervisor::Registry;
use cctv_core::supervisor::Supervisor;
use cctv_core::IDLE_THRESHOLD_S;

fn cams(urls: &[&str]) -> Vec<Camera> {
    urls.iter()
        .enumerate()
        .map(|(i, u)| Camera { name: format!("cam {}", i), url: u.to_string() })
        .collect()
}

#[test]
fn switch_pauses_old_and_resumes_new() {
    let (registry, receivers) = Registry::build(cams(&["rtsp://a", "rtsp://b"]));
    let mut sup = Supervisor::new(registry, 0);
    assert_eq!(sup.selected, "rtsp://a");

    let target = "rtsp://b".to_string();
    let msgs = sup.switch_stream(&target);
    assert_eq!(sup.selected, "rtsp://b");
    assert_eq!(msgs.len(), 2);
    assert_eq!(msgs[0].url, "rtsp://a");
    assert!(!msgs[0].resume);
    assert_eq!(msgs[1].url, "rtsp://b");
    assert!(msgs[1].resume);

    // The workers observe the signals at their next poll.
    assert_eq!(receivers[0].try_recv(), Ok(false));
    assert_eq!(receivers[1].try_recv(), Ok(true));
    assert!(receivers[0].try_recv().is_err());
    assert!(receivers[1].try_recv().is_err());
}

#[test]
fn switch_to_unknown_url_still_moves_selection() {
    let (registry, receivers) = Registry::build(cams(&["rtsp://a"]));
    let mut sup = Supervisor::new(registry, 0);
    let target = "rtsp://nowhere".to_string();
    let msgs = sup.switch_stream(&target);
    assert_eq!(sup.selected, "rtsp://nowhere");
    assert_eq!(msgs.len(), 1);
    assert_eq!(msgs[0].url, "rtsp://a");
    assert!(!msgs[0].resume);
    assert_eq!(receivers[0].try_recv(), Ok(false));
}

#[test]
fn next_and_previous_wrap_around() {
    let (registry, _receivers) = Registry::build(cams(&["rtsp://a", "rtsp://b", "rtsp://c"]));
    let mut sup = Supervisor::new(registry, 0);
    sup.next_camera();
    assert_eq!(sup.selected, "rtsp://b");
    sup.next_camera();
    assert_eq!(sup.selected, "rtsp://c");
    sup.next_camera();
    assert_eq!(sup.selected, "rtsp://a");
    sup.previous_camera();
    assert_eq!(sup.selected, "rtsp://c");
    sup.previous_camera();
    assert_eq!(sup.selected, "rtsp://b");
}

#[test]
fn idle_policy_pauses_every_camera_exactly_once() {
    let (registry, receivers) = Registry::build(cams(&["rtsp://a", "rtsp://b"]));
    let mut sup = Supervisor::new(registry, 100);

    // Below the threshold nothing happens.
    let msgs = sup.idle_tick(100 + IDLE_THRESHOLD_S - 1);
    assert!(msgs.is_empty());
    assert!(!sup.is_down);

    // At the threshold every registered camera is paused.
    let msgs = sup.idle_tick(100 + IDLE_THRESHOLD_S);
    assert_eq!(msgs.len(), 2);
    assert!(msgs.iter().all(|m| !m.resume));
    assert_eq!(msgs[0].url, "rtsp://a");
    assert_eq!(msgs[1].url, "rtsp://b");
    assert!(sup.is_down);
    assert_eq!(receivers[0].try_recv(), Ok(false));
    assert_eq!(receivers[1].try_recv(), Ok(false));

    // Later ticks resend nothing: the latch holds.
    let msgs = sup.idle_tick(100 + 10 * IDLE_THRESHOLD_S);
    assert!(msgs.is_empty());
    assert!(receivers[0].try_recv().is_err());
    assert!(receivers[1].try_recv().is_err());
}

#[test]
fn wake_resumes_only_the_selected_camera_and_resets_the_timer() {
    let (registry, receivers) = Registry::build(cams(&["rtsp://a", "rtsp://b"]));
    let mut sup = Supervisor::new(registry, 0);
    sup.idle_tick(IDLE_THRESHOLD_S);
    assert!(sup.is_down);
    let _ = receivers[0].try_recv();
    let _ = receivers[1].try_recv();

    let msgs = sup.wake(42);
    assert_eq!(sup.last_activity_s, 42);
    assert!(!sup.is_down);
    assert_eq!(msgs.len(), 1);
    assert_eq!(msgs[0].url, "rtsp://a");
    assert!(msgs[0].resume);
    assert_eq!(receivers[0].try_recv(), Ok(true));
    // The non-selected camera hears nothing and stays paused.
    assert!(receivers[1].try_recv().is_err());
}

#[test]
fn wake_while_running_only_resets_the_timer() {
    let (registry, receivers) = Registry::build(cams(&["rtsp://a"]));
    let mut sup = Supervisor::new(registry, 0);
    let msgs = sup.wake(3);
    assert!(msgs.is_empty());
    assert_eq!(sup.last_activity_s, 3);
    assert!(!sup.is_down);
    assert!(receivers[0].try_recv().is_err());
}

#[test]
fn activity_after_quiet_resumes_selected_and_restarts_timer() {
    let (registry, receivers) = Registry::build(cams(&["rtsp://a", "rtsp://b"]));
    let mut sup = Supervisor::new(registry, 0);
    sup.idle_tick(IDLE_THRESHOLD_S);
    let _ = receivers[0].try_recv();
    let _ = receivers[1].try_recv();

    let msgs = sup.note_activity(IDLE_THRESHOLD_S + 1);
    assert_eq!(sup.last_activity_s, IDLE_THRESHOLD_S + 1);
    assert!(!sup.is_down);
    assert_eq!(msgs.len(), 1);
    assert_eq!(msgs[0].url, "rtsp://a");
    assert!(msgs[0].resume);
    assert_eq!(receivers[0].try_recv(), Ok(true));
    assert!(receivers[1].try_recv().is_err());

    // Prompt activity sends nothing; it only moves the timer.
    let msgs = sup.note_activity(IDLE_THRESHOLD_S + 2);
    assert!(msgs.is_empty());
    assert_eq!(sup.last_activity_s, IDLE_THRESHOLD_S + 2);
}
