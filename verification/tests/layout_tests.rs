use wlrscreencopy::format::VideoFormat;
use wlrscreencopy::layout::video_layout;

#[test]
fn layout_640x480_unaligned() {
    let layout = video_layout(VideoFormat::Bgrx, 640, 480, 0).unwrap();
    assert_eq!(layout.width, 640);
    assert_eq!(layout.height, 480);
    assert_eq!(layout.stride, 2560);
    assert_eq!(layout.size, 640 * 480 * 4);
}

#[test]
fn layout_aligns_stride_upward() {
    // 5 pixels are 20 bytes; a 31 mask rounds the row up to 32 bytes.
    let layout = video_layout(VideoFormat::Rgba, 5, 3, 31).unwrap();
    assert_eq!(layout.stride, 32);
    assert_eq!(layout.size, 32 * 3);
}

#[test]
fn layout_keeps_already_aligned_stride() {
    // 1920 pixels are 7680 bytes, already a multiple of 128.
    let layout = video_layout(VideoFormat::Xrgb, 1920, 1080, 127).unwrap();
    assert_eq!(layout.stride, 7680);
    assert_eq!(layout.size, 7680 * 1080);
}

#[test]
fn layout_rejects_degenerate_dimensions() {
    assert!(video_layout(VideoFormat::Abgr, 0, 480, 0).is_none());
    assert!(video_layout(VideoFormat::Abgr, 640, 0, 0).is_none());
}

#[test]
fn layout_rejects_unrepresentable_stride() {
    // 4 bytes per pixel times 2^30 pixels does not fit a 32-bit stride.
    assert!(video_layout(VideoFormat::Abgr, 0x4000_0000, 1, 0).is_none());
}

#[test]
fn layout_is_deterministic() {
    let a = video_layout(VideoFormat::Xbgr, 1234, 567, 31);
    let b = video_layout(VideoFormat::Xbgr, 1234, 567, 31);
    assert_eq!(a, b);
}
