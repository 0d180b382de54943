use camera_pipeline::format::{CaptureFormat, PixelEncoding, Resolution};

#[test]
fn new_from_matches_new() {
    let a = CaptureFormat::new(Resolution::new(1280, 720), PixelEncoding::Mjpeg, 60);
    let b = CaptureFormat::new_from(1280, 720, PixelEncoding::Mjpeg, 60);
    assert_eq!(a, b);
    assert_eq!(a.resolution.width, 1280);
    assert_eq!(a.resolution.height, 720);
    assert_eq!(a.encoding, PixelEncoding::Mjpeg);
    assert_eq!(a.frame_rate, 60);
}

#[test]
fn formats_differ_in_each_field() {
    let base = CaptureFormat::new_from(640, 480, PixelEncoding::Yuyv, 30);
    assert_ne!(base, CaptureFormat::new_from(641, 480, PixelEncoding::Yuyv, 30));
    assert_ne!(base, CaptureFormat::new_from(640, 481, PixelEncoding::Yuyv, 30));
    assert_ne!(base, CaptureFormat::new_from(640, 480, PixelEncoding::Mjpeg, 30));
    assert_ne!(base, CaptureFormat::new_from(640, 480, PixelEncoding::Yuyv, 31));
}
