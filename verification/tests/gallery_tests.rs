use cctv_core::gallery::is_image_file_name;
use cctv_core::gallery::sort_newest_first;
use cctv_core::gallery::Gallery;

#[test]
fn image_extensions_are_recognized_without_regard_to_case() {
    assert!(is_image_file_name("shot.png"));
    assert!(is_image_file_name("shot.PNG"));
    assert!(is_image_file_name("shot.jpg"));
    assert!(is_image_file_name("shot.JpEg"));
    assert!(is_image_file_name("shot.ppm"));
}

#[test]
fn other_names_are_not_images() {
    assert!(!is_image_file_name("notes.txt"));
    assert!(!is_image_file_name("no_extension"));
    assert!(!is_image_file_name("shot.png.bak"));
    assert!(!is_image_file_name("trailing_dot."));
    assert!(!is_image_file_name(""));
}

#[test]
fn only_the_last_dot_counts() {
    assert!(is_image_file_name("archive.tar.png"));
    assert!(!is_image_file_name("picture.png.tar"));
}

#[test]
fn listings_are_put_newest_first() {
    let names = vec![
        "2024-01-02_cam.ppm".to_string(),
        "2024-03-01_cam.ppm".to_string(),
        "2024-01-02_cam.ppm".to_string(),
        "2023-12-31_cam.png".to_string(),
    ];
    let sorted = sort_newest_first(names);
    assert_eq!(
        sorted,
        vec![
            "2024-03-01_cam.ppm".to_string(),
            "2024-01-02_cam.ppm".to_string(),
            "2024-01-02_cam.ppm".to_string(),
            "2023-12-31_cam.png".to_string(),
        ]
    );
}

#[test]
fn opening_the_gallery_orders_the_listing() {
    let mut g = Gallery::new();
    g.open_gallery(vec!["a.png".to_string(), "c.png".to_string(), "b.png".to_string()]);
    assert_eq!(g.images, vec!["c.png".to_string(), "b.png".to_string(), "a.png".to_string()]);
    assert_eq!(g.current().unwrap().as_str(), "c.png");
}

#[test]
fn gallery_navigation_wraps_in_both_directions() {
    let mut g = Gallery::new();
    g.open_gallery(vec!["c.png".to_string(), "b.png".to_string(), "a.png".to_string()]);
    assert!(g.visible);
    assert_eq!(g.index, 0);
    assert_eq!(g.current().unwrap().as_str(), "c.png");
    g.gallery_next();
    assert_eq!(g.current().unwrap().as_str(), "b.png");
    g.gallery_next();
    g.gallery_next();
    assert_eq!(g.index, 0);
    g.gallery_previous();
    assert_eq!(g.current().unwrap().as_str(), "a.png");
    g.gallery_previous();
    assert_eq!(g.current().unwrap().as_str(), "b.png");
    g.close_gallery();
    assert!(!g.visible);
}

#[test]
fn an_empty_gallery_stays_put() {
    let mut g = Gallery::new();
    g.open_gallery(Vec::new());
    assert!(g.current().is_none());
    g.gallery_next();
    assert_eq!(g.index, 0);
    g.gallery_previous();
    assert_eq!(g.index, 0);
}
