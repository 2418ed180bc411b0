use cctv_core::config::Camera;
use cctv_core::config::Config;
use cctv_core::config::DoorbellConfig;
use cctv_core::config::RootConfig;

fn sample() -> RootConfig {
    RootConfig {
        config: Config {
            capture_path: "/tmp/captures".to_string(),
            cursor_visible: false,
            use_tcp_for_rtsp: true,
        },
        bell: DoorbellConfig { bell_ip: "10.0.0.9".to_string(), mdp: "pw".to_string() },
        camera: vec![
            Camera { name: "front".to_string(), url: "rtsp://a".to_string() },
            Camera { name: "back".to_string(), url: "rtsp://b".to_string() },
        ],
    }
}

#[test]
fn camera_urls_come_back_in_order() {
    let cfg = sample();
    assert_eq!(cfg.get_camera_urls(), vec!["rtsp://a".to_string(), "rtsp://b".to_string()]);
}

#[test]
fn camera_names_come_back_in_order() {
    let cfg = sample();
    assert_eq!(cfg.get_camera_names(), vec!["front".to_string(), "back".to_string()]);
}

#[test]
fn a_configuration_without_cameras_may_not_start() {
    let mut cfg = sample();
    assert!(cfg.check_valid());
    cfg.camera.clear();
    assert!(!cfg.check_valid());
}

#[test]
fn two_cameras_sharing_an_address_may_not_start() {
    let mut cfg = sample();
    cfg.camera.push(Camera { name: "front again".to_string(), url: "rtsp://a".to_string() });
    assert!(!cfg.check_valid());
}
