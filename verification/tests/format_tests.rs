use wlrscreencopy::format::{
    gst_video_format_from_drm_fourcc, gst_video_format_from_wl_shm,
    gst_video_format_to_drm_fourcc, gst_video_format_to_wl_shm, VideoFormat,
};
use wlrscreencopy::frame::{FrameEvent, FrameRequest};

const SUPPORTED: [VideoFormat; 8] = [
    VideoFormat::Rgba,
    VideoFormat::Bgra,
    VideoFormat::Argb,
    VideoFormat::Xrgb,
    VideoFormat::Abgr,
    VideoFormat::Xbgr,
    VideoFormat::Rgbx,
    VideoFormat::Bgrx,
];

#[test]
fn wl_shm_round_trip_all_supported() {
    for format in SUPPORTED {
        let code = gst_video_format_to_wl_shm(format);
        assert_eq!(gst_video_format_from_wl_shm(code), Some(format));
    }
}

#[test]
fn drm_fourcc_round_trip_all_supported() {
    for format in SUPPORTED {
        let code = gst_video_format_to_drm_fourcc(format);
        assert_eq!(gst_video_format_from_drm_fourcc(code), Some(format));
    }
}

#[test]
fn wl_shm_exact_values() {
    // The two dedicated wl_shm codes.
    assert_eq!(gst_video_format_from_wl_shm(0), Some(VideoFormat::Bgra));
    assert_eq!(gst_video_format_from_wl_shm(1), Some(VideoFormat::Bgrx));
    // A fourcc-valued wl_shm code.
    assert_eq!(gst_video_format_from_wl_shm(0x34324241), Some(VideoFormat::Rgba));
    assert_eq!(gst_video_format_to_wl_shm(VideoFormat::Bgrx), 1);
    assert_eq!(gst_video_format_to_wl_shm(VideoFormat::Bgra), 0);
    assert_eq!(gst_video_format_to_wl_shm(VideoFormat::Rgba), 0x34324241);
}

#[test]
fn drm_fourcc_exact_values() {
    assert_eq!(gst_video_format_to_drm_fourcc(VideoFormat::Xrgb), 0x34325258);
    assert_eq!(gst_video_format_to_drm_fourcc(VideoFormat::Abgr), 0x34324241);
    assert_eq!(gst_video_format_from_drm_fourcc(0x34325258), Some(VideoFormat::Xrgb));
    assert_eq!(gst_video_format_from_drm_fourcc(0x34324142), Some(VideoFormat::Bgra));
}

#[test]
fn unknown_codes_translate_to_none() {
    // Not valid codes in either vocabulary.
    assert_eq!(gst_video_format_from_wl_shm(0xDEAD_BEEF), None);
    assert_eq!(gst_video_format_from_drm_fourcc(7), None);
}

#[test]
fn wl_shm_recognition_matches_protocol() {
    // The state machine records a candidate exactly when the wire
    // protocol defines its code.  All eight supported codes qualify.
    let mut req = FrameRequest::new(0);
    for format in SUPPORTED {
        let code = gst_video_format_to_wl_shm(format);
        req.handle_event(FrameEvent::Buffer { code, width: 1, height: 1, stride: 4 }).unwrap();
    }
    assert_eq!(req.shm_formats.len(), 8);
    // Protocol-defined but outside the supported set (xrgb8888_a8):
    // recorded as a candidate, though it translates to nothing.
    req.handle_event(FrameEvent::Buffer { code: 0x38415258, width: 1, height: 1, stride: 4 })
        .unwrap();
    assert_eq!(req.shm_formats.len(), 9);
    assert_eq!(gst_video_format_from_wl_shm(0x38415258), None);
    // Not protocol-defined at all: skipped.
    req.handle_event(FrameEvent::Buffer { code: 0xDEAD_BEEF, width: 1, height: 1, stride: 4 })
        .unwrap();
    assert_eq!(req.shm_formats.len(), 9);
}

#[test]
fn drm_fourcc_recognition_matches_registry() {
    let mut req = FrameRequest::new(0);
    for format in SUPPORTED {
        let code = gst_video_format_to_drm_fourcc(format);
        req.handle_event(FrameEvent::LinuxDmabuf { code, width: 1, height: 1 }).unwrap();
    }
    assert_eq!(req.dmabuf_formats.len(), 8);
    // A registry fourcc outside the supported set (BGR888): recorded,
    // though it translates to nothing.
    req.handle_event(FrameEvent::LinuxDmabuf { code: 875710274, width: 1, height: 1 }).unwrap();
    assert_eq!(req.dmabuf_formats.len(), 9);
    assert_eq!(gst_video_format_from_drm_fourcc(875710274), None);
    // Not a registry fourcc: skipped.
    req.handle_event(FrameEvent::LinuxDmabuf { code: 0, width: 1, height: 1 }).unwrap();
    assert_eq!(req.dmabuf_formats.len(), 9);
}
