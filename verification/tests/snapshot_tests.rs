use cctv_core::frame::Frame;
use cctv_core::snapshot::decode;
use cctv_core::snapshot::encode;
use cctv_core::snapshot::header_bytes;
use cctv_core::snapshot::snapshot_file_name;
use cctv_core::snapshot::SNAPSHOT_HEADER_LEN;
use cctv_core::FRAME_BYTES;

#[test]
fn header_is_the_fixed_pixmap_preamble() {
    let h = header_bytes();
    assert_eq!(h.len(), SNAPSHOT_HEADER_LEN);
    assert_eq!(h, b"P6\n1280 720\n255\n".to_vec());
}

#[test]
fn snapshot_round_trip_preserves_every_pixel() {
    let mut data = vec![0u8; FRAME_BYTES];
    for (i, b) in data.iter_mut().enumerate() {
        *b = (i % 251) as u8;
    }
    let frame = Frame::new(data.clone(), "rtsp://a".to_string());
    let bytes = encode(&frame);
    assert_eq!(bytes.len(), SNAPSHOT_HEADER_LEN + FRAME_BYTES);
    let back = decode(&bytes).unwrap();
    assert_eq!(back, data);
}

#[test]
fn decode_rejects_a_truncated_snapshot() {
    let frame = Frame::new(vec![7u8; FRAME_BYTES], "rtsp://a".to_string());
    let mut bytes = encode(&frame);
    bytes.pop();
    assert!(decode(&bytes).is_none());
}

#[test]
fn decode_rejects_a_foreign_header() {
    let frame = Frame::new(vec![7u8; FRAME_BYTES], "rtsp://a".to_string());
    let mut bytes = encode(&frame);
    bytes[0] = b'Q';
    assert!(decode(&bytes).is_none());
}

#[test]
fn file_name_underscores_the_camera_name() {
    let path = snapshot_file_name("/tmp/captures", "2024-01-02_03-04-05", "front door cam");
    assert_eq!(path, "/tmp/captures/2024-01-02_03-04-05_front_door_cam.ppm");
}

#[test]
fn file_name_keeps_a_plain_camera_name() {
    let path = snapshot_file_name("shots", "t", "porch");
    assert_eq!(path, "shots/t_porch.ppm");
}
