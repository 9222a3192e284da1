use noise_cymk::capture::sampler::{zone_pixel_colors, Rect};
use noise_cymk::capture::screenshots_win::ScreenError;
use noise_cymk::capture::xcap::XCapError;
use noise_cymk::capture::{swap_red_blue_in_place, CaptureError, CapturedFrame};

#[test]
fn rect_is_construction() {
    let r = Rect { x: 10, y: 20, w: 100, h: 50 };
    assert_eq!(r.x, 10);
    assert_eq!(r.h, 50);
}

#[test]
fn capture_error_display_is_readable() {
    let e = CaptureError::Timeout;
    assert!(e.message().contains("timed out"));
}

#[test]
fn capture_error_messages() {
    assert_eq!(
        CaptureError::Unsupported.message(),
        "screen capture not supported on this platform"
    );
    assert_eq!(CaptureError::DxgiLost.message(), "DXGI session lost — recreate capture");
    assert_eq!(CaptureError::Other("boom".into()).message(), "capture failed: boom");
    assert_eq!(XCapError::Timeout.message(), "xcap timeout");
    assert_eq!(XCapError::NoMonitors.message(), "no monitors found");
    assert_eq!(XCapError::Other("x".into()).message(), "xcap: x");
    assert_eq!(ScreenError::NoScreens.message(), "no screens found");
    assert_eq!(ScreenError::Other("y".into()).message(), "capture failed: y");
}

#[test]
fn backend_messages_are_classified() {
    assert!(matches!(
        CaptureError::from_backend_message("DXGI frame timeout"),
        CaptureError::Timeout
    ));
    assert!(matches!(
        CaptureError::from_backend_message("session ended"),
        CaptureError::DxgiLost
    ));
    assert!(matches!(
        CaptureError::from_backend_message("device lost"),
        CaptureError::DxgiLost
    ));
    match CaptureError::from_backend_message("AcquireNextFrame failed: E_FAIL") {
        CaptureError::Other(m) => assert_eq!(m, "AcquireNextFrame failed: E_FAIL"),
        other => panic!("{:?}", other),
    }
    assert!(matches!(
        CaptureError::from_xcap(XCapError::Timeout),
        CaptureError::Timeout
    ));
    match CaptureError::from_xcap(XCapError::NoMonitors) {
        CaptureError::Other(m) => assert_eq!(m, "no monitors found"),
        other => panic!("{:?}", other),
    }
}

fn fill_solid(width: u32, height: u32, r: u8, g: u8, b: u8) -> Vec<u8> {
    let stride = width * 4;
    let mut buf = vec![0u8; (stride * height) as usize];
    for chunk in buf.chunks_mut(4) {
        chunk[0] = b;
        chunk[1] = g;
        chunk[2] = r;
        chunk[3] = 255;
    }
    buf
}

#[test]
fn zone_pixels_of_a_solid_frame() {
    let buf = fill_solid(100, 100, 255, 0, 0);
    let px = zone_pixel_colors(&buf, 100 * 4, 100, Rect { x: 0, y: 0, w: 100, h: 100 });
    assert_eq!(px.len(), 100 * 100);
    assert!(px.iter().all(|p| p.r == 255 && p.g == 0 && p.b == 0));
}

#[test]
fn zone_pixels_are_clipped_to_the_frame() {
    let mut buf = vec![0u8; 4 * 4 * 3];
    // pixel (x=3, y=2) is blue=1, green=2, red=3
    let i = 2 * 16 + 3 * 4;
    buf[i] = 1;
    buf[i + 1] = 2;
    buf[i + 2] = 3;
    let px = zone_pixel_colors(&buf, 16, 3, Rect { x: 2, y: 1, w: 10, h: 10 });
    assert_eq!(px.len(), 2 * 2);
    assert_eq!((px[3].r, px[3].g, px[3].b), (3, 2, 1));
    // A zone that starts beyond the frame covers nothing.
    assert!(zone_pixel_colors(&buf, 16, 3, Rect { x: 7, y: 0, w: 2, h: 2 }).is_empty());
}

#[test]
fn zone_pixels_stop_at_a_short_buffer() {
    // Frame claims 2 rows of 2 pixels but holds only 1.5 rows of bytes.
    let buf = vec![7u8; 12];
    let px = zone_pixel_colors(&buf, 8, 2, Rect { x: 0, y: 0, w: 2, h: 2 });
    assert_eq!(px.len(), 2 + 1);
}

#[test]
fn empty_zone_has_no_pixels() {
    assert!(zone_pixel_colors(&[], 0, 0, Rect { x: 0, y: 0, w: 0, h: 0 }).is_empty());
    let buf = fill_solid(4, 4, 1, 2, 3);
    assert!(zone_pixel_colors(&buf, 16, 4, Rect { x: 1, y: 1, w: 0, h: 3 }).is_empty());
}

#[test]
fn rgba_frames_become_bgra() {
    let rgba = vec![1, 2, 3, 4, 5, 6, 7, 8, 9, 10];
    let f = CapturedFrame::from_rgba(2, 1, rgba.clone());
    assert_eq!(f.width, 2);
    assert_eq!(f.height, 1);
    assert_eq!(f.stride, 8);
    assert_eq!(f.data, vec![3, 2, 1, 4, 7, 6, 5, 8, 9, 10]);
    let mut back = f.data.clone();
    swap_red_blue_in_place(&mut back);
    assert_eq!(back, rgba);
}
