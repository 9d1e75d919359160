use wlrscreencopy::allocators::AllocatorKind;
use wlrscreencopy::format::VideoFormat;
use wlrscreencopy::frame::{FrameEvent, FramePhase, FrameTerminal, ProtocolViolation};
use wlrscreencopy::outputs::{OutputEvent, OutputRegistry, SelectError};
use wlrscreencopy::pool::{ImportPlan, VideoCaps, WaylandBufferPool};
use wlrscreencopy::session::{CaptureSession, DecideError, SessionError};

const XRGB_FOURCC: u32 = 0x34325258;
const XRGB_SHM: u32 = 1;

fn one_output_registry(name: &str, refresh: i32) -> OutputRegistry {
    let mut registry = OutputRegistry::new();
    registry.add_output();
    registry
        .handle_event(
            0,
            OutputEvent::Mode { flags: 1, width: 1920, height: 1080, refresh },
        )
        .unwrap();
    registry.handle_event(0, OutputEvent::Name(String::from(name))).unwrap();
    registry.handle_event(0, OutputEvent::Done).unwrap();
    registry
}

#[test]
fn zero_copy_session_produces_zero_copy_buffer() {
    // The session advertises exactly one zero-copy format at 1920x1080
    // and zero-copy transport is available.
    let registry = one_output_registry("DP-1", 60000);
    let mut session = CaptureSession::new(registry, true, false, None);
    let cmd = session.request_capture().unwrap();
    assert_eq!(cmd.output_index, 0);
    session
        .handle_frame_event(
            cmd.request_id,
            FrameEvent::LinuxDmabuf { code: XRGB_FOURCC, width: 1920, height: 1080 },
        )
        .unwrap();
    assert!(!session.formats_done());
    session.handle_frame_event(cmd.request_id, FrameEvent::BufferDone).unwrap();
    assert!(session.formats_done());

    // The advertised candidate is negotiable at the output's refresh.
    let caps = session.caps().unwrap();
    assert_eq!(caps.len(), 1);
    assert_eq!(caps[0].format, VideoFormat::Xrgb);
    assert_eq!(caps[0].width, 1920);
    assert_eq!(caps[0].height, 1080);
    assert_eq!(caps[0].refresh_mhz_bound, Some(60000));

    // Deciding the allocation picks the zero-copy backend.
    let video = VideoCaps { format: caps[0].format, width: caps[0].width, height: caps[0].height };
    let config = session.decide_allocation(video, Some((1, 2))).unwrap();
    assert_eq!(config.allocator, Some(AllocatorKind::GpuBufferDevice));
    assert_eq!(config.params_align, 127);
    assert_eq!(config.video_alignment, Some(31));
    assert!(config.add_video_meta);
    assert_eq!((config.min_buffers, config.max_buffers), (1, 2));

    // The pool fabricates a buffer backed by the zero-copy allocator with
    // the negotiated layout and format.
    let mut pool = WaylandBufferPool::new();
    assert!(pool.set_config(&config));
    let request = pool.gpu_allocation_request();
    assert_eq!((request.width, request.height), (1920, 1080));
    let buffer = pool.alloc_buffer_from_export(9, request.min_size).unwrap();
    match &buffer.import {
        ImportPlan::DmabufParams { width, height, fourcc, .. } => {
            assert_eq!((*width, *height), (1920, 1080));
            assert_eq!(*fourcc, XRGB_FOURCC);
        }
        ImportPlan::ShmPool { .. } => panic!("zero-copy buffer expected"),
    }
}

#[test]
fn dma_heap_preferred_when_available() {
    let registry = one_output_registry("DP-1", 60000);
    let mut session = CaptureSession::new(registry, true, true, None);
    let cmd = session.request_capture().unwrap();
    session
        .handle_frame_event(
            cmd.request_id,
            FrameEvent::LinuxDmabuf { code: XRGB_FOURCC, width: 1920, height: 1080 },
        )
        .unwrap();
    session.handle_frame_event(cmd.request_id, FrameEvent::BufferDone).unwrap();
    let video = VideoCaps { format: VideoFormat::Xrgb, width: 1920, height: 1080 };
    let config = session.decide_allocation(video, None).unwrap();
    assert_eq!(config.allocator, Some(AllocatorKind::KernelDmaHeap));
}

#[test]
fn shm_fallback_without_zero_copy_transport() {
    // Zero-copy transport absent: sealed shared memory regardless of the
    // candidate sets.
    let registry = one_output_registry("DP-1", 60000);
    let mut session = CaptureSession::new(registry, false, true, None);
    let cmd = session.request_capture().unwrap();
    session
        .handle_frame_event(
            cmd.request_id,
            FrameEvent::LinuxDmabuf { code: XRGB_FOURCC, width: 1920, height: 1080 },
        )
        .unwrap();
    session
        .handle_frame_event(
            cmd.request_id,
            FrameEvent::Buffer { code: XRGB_SHM, width: 1920, height: 1080, stride: 7680 },
        )
        .unwrap();
    session.handle_frame_event(cmd.request_id, FrameEvent::BufferDone).unwrap();
    let video = VideoCaps { format: VideoFormat::Bgrx, width: 1920, height: 1080 };
    let config = session.decide_allocation(video, None).unwrap();
    assert_eq!(config.allocator, Some(AllocatorKind::SealedSharedMemory));
    assert_eq!(config.params_align, 0);
    assert_eq!(config.video_alignment, None);
}

#[test]
fn shm_stride_mismatch_aborts_decision() {
    let registry = one_output_registry("DP-1", 60000);
    let mut session = CaptureSession::new(registry, false, false, None);
    let cmd = session.request_capture().unwrap();
    // The compositor advertises a stride different from 1920 * 4.
    session
        .handle_frame_event(
            cmd.request_id,
            FrameEvent::Buffer { code: XRGB_SHM, width: 1920, height: 1080, stride: 8192 },
        )
        .unwrap();
    session.handle_frame_event(cmd.request_id, FrameEvent::BufferDone).unwrap();
    let video = VideoCaps { format: VideoFormat::Bgrx, width: 1920, height: 1080 };
    assert_eq!(session.decide_allocation(video, None), Err(DecideError::StrideMismatch));
}

#[test]
fn shm_decision_needs_a_candidate() {
    let registry = one_output_registry("DP-1", 60000);
    let mut session = CaptureSession::new(registry, false, false, None);
    let cmd = session.request_capture().unwrap();
    session.handle_frame_event(cmd.request_id, FrameEvent::BufferDone).unwrap();
    let video = VideoCaps { format: VideoFormat::Xrgb, width: 1920, height: 1080 };
    assert_eq!(session.decide_allocation(video, None), Err(DecideError::NoShmCandidate));
}

#[test]
fn caps_skip_unsupported_candidates_and_unknown_refresh() {
    let registry = one_output_registry("DP-1", 0);
    let mut session = CaptureSession::new(registry, true, false, None);
    let cmd = session.request_capture().unwrap();
    // A registry fourcc outside the supported set contributes nothing.
    session
        .handle_frame_event(
            cmd.request_id,
            FrameEvent::LinuxDmabuf { code: 875710274, width: 1920, height: 1080 },
        )
        .unwrap();
    session
        .handle_frame_event(
            cmd.request_id,
            FrameEvent::Buffer { code: XRGB_SHM, width: 1920, height: 1080, stride: 7680 },
        )
        .unwrap();
    session.handle_frame_event(cmd.request_id, FrameEvent::BufferDone).unwrap();
    let caps = session.caps().unwrap();
    assert_eq!(caps.len(), 1);
    assert_eq!(caps[0].format, VideoFormat::Bgrx);
    // An unknown refresh rate leaves the frame rate unbounded.
    assert_eq!(caps[0].refresh_mhz_bound, None);
}

#[test]
fn events_for_another_frame_are_violations() {
    let registry = one_output_registry("DP-1", 60000);
    let mut session = CaptureSession::new(registry, false, false, None);
    let cmd = session.request_capture().unwrap();
    assert_eq!(
        session.handle_frame_event(cmd.request_id + 1, FrameEvent::BufferDone),
        Err(ProtocolViolation::WrongFrame)
    );
    // The tracked request is untouched by the rejected event.
    assert!(!session.formats_done());
}

#[test]
fn events_without_a_frame_are_violations() {
    let registry = one_output_registry("DP-1", 60000);
    let mut session = CaptureSession::new(registry, false, false, None);
    assert_eq!(
        session.handle_frame_event(0, FrameEvent::BufferDone),
        Err(ProtocolViolation::NoFrame)
    );
}

#[test]
fn failed_frame_is_rearmed_before_the_error_surfaces() {
    // Frame 1 terminates `Failed`; by the time the caller observes the
    // failure, frame 2's request is already accumulating formats.
    let registry = one_output_registry("DP-1", 60000);
    let mut session = CaptureSession::new(registry, false, false, None);
    let cmd1 = session.request_capture().unwrap();
    session
        .handle_frame_event(
            cmd1.request_id,
            FrameEvent::Buffer { code: XRGB_SHM, width: 1920, height: 1080, stride: 7680 },
        )
        .unwrap();
    session.handle_frame_event(cmd1.request_id, FrameEvent::BufferDone).unwrap();
    let copy = session.issue_copy().unwrap();
    assert_eq!(copy.request_id, cmd1.request_id);
    assert!(!session.frame_terminated());
    session.handle_frame_event(cmd1.request_id, FrameEvent::Failed).unwrap();
    assert!(session.frame_terminated());

    let finished = session.finish_frame().unwrap();
    assert_eq!(finished.terminal, FrameTerminal::Failed);
    assert_eq!(finished.destroy_request, cmd1.request_id);
    assert_ne!(finished.next.request_id, cmd1.request_id);

    // The next frame is already in flight: its advertisements land.
    session
        .handle_frame_event(
            finished.next.request_id,
            FrameEvent::Buffer { code: XRGB_SHM, width: 1920, height: 1080, stride: 7680 },
        )
        .unwrap();
    let frame = session.current_frame.as_ref().unwrap();
    assert_eq!(frame.request.phase, FramePhase::AccumulatingFormats);
    // Stale events for the destroyed frame are violations.
    assert_eq!(
        session.handle_frame_event(cmd1.request_id, FrameEvent::BufferDone),
        Err(ProtocolViolation::WrongFrame)
    );
}

#[test]
fn two_successful_frames_share_layout_and_handle_kind() {
    // Two sequential successful frames against one unchanged pool
    // configuration: identical layout, both shared-memory backed.
    let registry = one_output_registry("DP-1", 60000);
    let mut session = CaptureSession::new(registry, false, false, None);
    let cmd1 = session.request_capture().unwrap();
    session
        .handle_frame_event(
            cmd1.request_id,
            FrameEvent::Buffer { code: XRGB_SHM, width: 64, height: 32, stride: 256 },
        )
        .unwrap();
    session.handle_frame_event(cmd1.request_id, FrameEvent::BufferDone).unwrap();
    let video = VideoCaps { format: VideoFormat::Bgrx, width: 64, height: 32 };
    let config = session.decide_allocation(video, Some((1, 1))).unwrap();
    let mut pool = WaylandBufferPool::new();
    assert!(pool.set_config(&config));

    let mut outcomes = Vec::new();
    let mut cmd = cmd1;
    for _ in 0..2 {
        let buffer = pool.alloc_buffer().unwrap();
        session.issue_copy().unwrap();
        session
            .handle_frame_event(
                cmd.request_id,
                FrameEvent::Ready { tv_sec_hi: 0, tv_sec_lo: 7, tv_nsec: 9 },
            )
            .unwrap();
        let finished = session.finish_frame().unwrap();
        assert!(matches!(finished.terminal, FrameTerminal::Ready { .. }));
        outcomes.push(buffer);
        cmd = finished.next;
        // The re-armed frame accumulates the same candidates again.
        session
            .handle_frame_event(
                cmd.request_id,
                FrameEvent::Buffer { code: XRGB_SHM, width: 64, height: 32, stride: 256 },
            )
            .unwrap();
        session.handle_frame_event(cmd.request_id, FrameEvent::BufferDone).unwrap();
    }

    match (&outcomes[0].import, &outcomes[1].import) {
        (
            ImportPlan::ShmPool { width: w1, height: h1, stride: s1, format_code: f1, .. },
            ImportPlan::ShmPool { width: w2, height: h2, stride: s2, format_code: f2, .. },
        ) => assert_eq!((w1, h1, s1, f1), (w2, h2, s2, f2)),
        _ => panic!("both frames must be shared-memory backed"),
    }
}

#[test]
fn retargeting_applies_to_the_next_capture() {
    let mut registry = OutputRegistry::new();
    registry.add_output();
    registry.add_output();
    registry.handle_event(0, OutputEvent::Name(String::from("DP-1"))).unwrap();
    registry.handle_event(0, OutputEvent::Done).unwrap();
    registry.handle_event(1, OutputEvent::Name(String::from("HDMI-1"))).unwrap();
    registry.handle_event(1, OutputEvent::Done).unwrap();
    let mut session = CaptureSession::new(registry, false, false, None);
    let cmd1 = session.request_capture().unwrap();
    assert_eq!(cmd1.output_index, 0);
    // The control plane re-targets mid-frame; the in-flight request is
    // untouched, only the next capture goes to the named output.
    session.set_output_name(Some(String::from("HDMI-1")));
    session.handle_frame_event(cmd1.request_id, FrameEvent::BufferDone).unwrap();
    session.issue_copy().unwrap();
    session.handle_frame_event(cmd1.request_id, FrameEvent::Failed).unwrap();
    let finished = session.finish_frame().unwrap();
    assert_eq!(finished.next.output_index, 1);
}

#[test]
fn rearm_fails_only_when_no_output_matches() {
    // When the target was re-pointed at a name no output carries, the
    // re-arm inside frame completion reports the selection failure and
    // leaves no request in flight.
    let registry = one_output_registry("DP-1", 60000);
    let mut session = CaptureSession::new(registry, false, false, None);
    let cmd = session.request_capture().unwrap();
    session.handle_frame_event(cmd.request_id, FrameEvent::BufferDone).unwrap();
    session.issue_copy().unwrap();
    session.handle_frame_event(cmd.request_id, FrameEvent::Failed).unwrap();
    session.set_output_name(Some(String::from("eDP-1")));
    assert_eq!(
        session.finish_frame(),
        Err(SessionError::Select(SelectError::NamedOutputNotFound))
    );
    assert!(session.current_frame.is_none());
}

#[test]
fn named_output_selection_drives_capture() {
    let mut registry = OutputRegistry::new();
    registry.add_output();
    registry.add_output();
    registry.handle_event(0, OutputEvent::Name(String::from("DP-1"))).unwrap();
    registry.handle_event(0, OutputEvent::Done).unwrap();
    registry.handle_event(1, OutputEvent::Name(String::from("HDMI-1"))).unwrap();
    registry.handle_event(1, OutputEvent::Done).unwrap();
    let mut session =
        CaptureSession::new(registry, false, false, Some(String::from("HDMI-1")));
    let cmd = session.request_capture().unwrap();
    assert_eq!(cmd.output_index, 1);
}
