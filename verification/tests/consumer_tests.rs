use cctv_core::channels::frame_channel;
use cctv_core::channels::publish_frame;
use cctv_core::consumer::drain_latest;
use cctv_core::consumer::select_latest;
use cctv_core::frame::Frame;
use cctv_core::FRAME_BYTES;
use cctv_core::FRAME_CHANNEL_CAPACITY;

fn marked_frame(url: &str, mark: u8) -> Frame {
    let mut data = vec![0u8; FRAME_BYTES];
    data[0] = mark;
    Frame::new(data, url.to_string())
}

#[test]
fn select_latest_keeps_the_newest_frame_of_the_selected_camera() {
    let frames = vec![
        marked_frame("rtsp://a", 1),
        marked_frame("rtsp://b", 2),
        marked_frame("rtsp://a", 3),
        marked_frame("rtsp://b", 4),
    ];
    let selected = "rtsp://a".to_string();
    let kept = select_latest(frames, &selected).unwrap();
    assert_eq!(kept.url, "rtsp://a");
    assert_eq!(kept.data[0], 3);
}

#[test]
fn select_latest_ignores_other_cameras_entirely() {
    let frames = vec![marked_frame("rtsp://b", 1), marked_frame("rtsp://c", 2)];
    let selected = "rtsp://a".to_string();
    assert!(select_latest(frames, &selected).is_none());
}

#[test]
fn select_latest_on_an_empty_batch_yields_nothing() {
    let selected = "rtsp://a".to_string();
    assert!(select_latest(Vec::new(), &selected).is_none());
}

#[test]
fn drain_keeps_the_newest_matching_frame_and_empties_the_channel() {
    let (senders, rx) = frame_channel(2);
    assert!(publish_frame(&senders[0], marked_frame("rtsp://a", 1)));
    assert!(publish_frame(&senders[1], marked_frame("rtsp://b", 2)));
    assert!(publish_frame(&senders[0], marked_frame("rtsp://a", 3)));

    let selected = "rtsp://a".to_string();
    let kept = drain_latest(&rx, &selected).unwrap();
    assert_eq!(kept.url, "rtsp://a");
    assert_eq!(kept.data[0], 3);

    // Everything pending was consumed in that one poll cycle.
    assert!(drain_latest(&rx, &selected).is_none());
}

#[test]
fn a_full_channel_drops_frames_instead_of_blocking() {
    let (senders, rx) = frame_channel(1);
    for i in 0..FRAME_CHANNEL_CAPACITY {
        assert!(publish_frame(&senders[0], marked_frame("rtsp://a", i as u8)));
    }
    // The capacity is used up: the next publish is dropped, not queued.
    assert!(!publish_frame(&senders[0], marked_frame("rtsp://a", 99)));

    let selected = "rtsp://a".to_string();
    let kept = drain_latest(&rx, &selected).unwrap();
    assert_eq!(kept.data[0], (FRAME_CHANNEL_CAPACITY - 1) as u8);
}
