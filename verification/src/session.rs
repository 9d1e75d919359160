//! The capture session: owns the output registry and at most one
//! in-flight frame request, decides which output to capture, turns the
//! advertised candidates into negotiable capabilities, and decides the
//! buffer-pool configuration for a negotiated format.
//!
//! The blocking protocol dispatch loop lives outside the library; it
//! feeds events in and blocks on the completion predicates exposed here
//! (`formats_done`, `frame_terminated`).

use vstd::prelude::*;

use crate::allocators::{spec_select_allocator, select_allocator, AllocatorKind};
use crate::format::{
    spec_format_from_drm_fourcc, spec_format_from_wl_shm, spec_format_to_drm_fourcc,
    spec_format_to_wl_shm, gst_video_format_from_drm_fourcc, gst_video_format_from_wl_shm,
    gst_video_format_to_drm_fourcc, gst_video_format_to_wl_shm, VideoFormat,
};
use crate::frame::{
    spec_formats_announced, spec_frame_step, FrameDmabufFormat, FrameEvent, FramePhase,
    FrameRequest, FrameShmFormat, FrameTerminal, ProtocolViolation,
};
use crate::layout::spec_video_layout;
use crate::layout::video_layout;
use crate::outputs::{OutputRegistry, SelectError};
use crate::pool::{PoolConfig, VideoCaps};

verus! {

/// Allocation-parameter alignment mask used for zero-copy buffers, so
/// that hardware consumers with alignment requirements can read them.
pub const ZERO_COPY_PARAMS_ALIGN: u32 = 127;

/// Per-plane stride alignment mask requested for zero-copy buffers.
pub const ZERO_COPY_STRIDE_ALIGN: u32 = 31;

/// One negotiable capability: a supported format at the advertised
/// geometry, bounded by the captured output's refresh rate.
#[derive(Clone, Copy, Debug, PartialEq, Eq, Structural)]
pub struct CapsEntry {
    pub format: VideoFormat,
    pub width: u32,
    pub height: u32,
    /// Upper frame-rate bound in millihertz; `None` when the output's
    /// refresh rate is unknown, leaving the rate unbounded.
    pub refresh_mhz_bound: Option<u32>,
}

/// Why no pool configuration could be decided for a negotiated format.
#[derive(Clone, Copy, Debug, PartialEq, Eq, Structural)]
pub enum DecideError {
    /// The dimensions form no representable layout.
    LayoutUnrepresentable,
    /// The layout's total size exceeds the configuration's 32-bit size
    /// field.
    SizeOverflow,
    /// The shared-memory path was chosen but the frame advertises no
    /// candidate in the negotiated format.
    NoShmCandidate,
    /// The compositor will write a stride different from the negotiated
    /// layout's; re-deriving capabilities is not attempted.
    StrideMismatch,
}

/// A session-level failure: either a protocol-invariant violation or a
/// failed output selection.
#[derive(Clone, Copy, Debug, PartialEq, Eq, Structural)]
pub enum SessionError {
    Violation(ProtocolViolation),
    Select(SelectError),
}

/// An instruction to the transport: request capture of the output at
/// `output_index`, tagging the new frame object with `request_id`.
#[derive(Clone, Copy, Debug, PartialEq, Eq, Structural)]
pub struct CaptureCommand {
    pub request_id: u64,
    pub output_index: usize,
}

/// An instruction to the transport: ask the frame object tagged
/// `request_id` to copy into the caller's buffer handle.
#[derive(Clone, Copy, Debug, PartialEq, Eq, Structural)]
pub struct CopyCommand {
    pub request_id: u64,
}

/// The outcome of one completed frame, together with the re-arm already
/// performed: the finished frame object to destroy and the capture
/// command for the next frame.
#[derive(Clone, Copy, Debug, PartialEq, Eq, Structural)]
pub struct FinishedFrame {
    pub terminal: FrameTerminal,
    /// The finished frame object, to be destroyed by the transport.
    pub destroy_request: u64,
    /// The next frame's capture, already tracked by the session.
    pub next: CaptureCommand,
}

/// The frame request in flight, tagged with the identity of the protocol
/// object it travels on.
#[derive(Debug)]
pub struct FrameInFlight {
    pub id: u64,
    pub request: FrameRequest,
}

/// Whether some advertised zero-copy candidate carries the fourcc code.
pub open spec fn spec_zero_copy_candidate(s: Seq<FrameDmabufFormat>, code: u32) -> bool {
    exists|i: int| 0 <= i < s.len() && (#[trigger] s[i]).code == code
}

/// The first advertised shared-memory candidate with the given code.
pub open spec fn spec_first_shm(s: Seq<FrameShmFormat>, code: u32) -> Option<FrameShmFormat>
    decreases s.len(),
{
    if s.len() == 0 {
        None
    } else if s[0].code == code {
        Some(s[0])
    } else {
        spec_first_shm(s.skip(1), code)
    }
}

/// Scanning a prefix without a match does not change the first match.
proof fn lemma_first_shm_skip(s: Seq<FrameShmFormat>, code: u32, i: int)
    requires
        0 <= i <= s.len(),
        forall|j: int| 0 <= j < i ==> (#[trigger] s[j]).code != code,
    ensures
        spec_first_shm(s, code) == spec_first_shm(s.skip(i), code),
    decreases i,
{
    if i > 0 {
        lemma_first_shm_skip(s, code, i - 1);
        let t = s.skip(i - 1);
        assert(t[0] == s[i - 1]);
        assert(t[0].code != code);
        assert(spec_first_shm(t, code) == spec_first_shm(t.skip(1), code));
        assert(t.skip(1) =~= s.skip(i));
    } else {
        assert(s.skip(0) =~= s);
    }
}

/// Find the first shared-memory candidate advertising `code`.
pub fn find_first_shm(s: &Vec<FrameShmFormat>, code: u32) -> (r: Option<FrameShmFormat>)
    ensures
        r == spec_first_shm(s@, code),
{
    let mut i: usize = 0;
    while i < s.len()
        invariant
            0 <= i <= s@.len(),
            forall|j: int| 0 <= j < i ==> (#[trigger] s@[j]).code != code,
        decreases s@.len() - i,
    {
        if s[i].code == code {
            proof {
                lemma_first_shm_skip(s@, code, i as int);
                assert(s@.skip(i as int)[0] == s@[i as int]);
            }
            return Some(s[i]);
        }
        i += 1;
    }
    proof {
        lemma_first_shm_skip(s@, code, s@.len() as int);
        assert(s@.skip(s@.len() as int).len() == 0);
    }
    None
}

/// Whether the zero-copy candidate set carries `code`.
pub fn contains_dmabuf_code(s: &Vec<FrameDmabufFormat>, code: u32) -> (r: bool)
    ensures
        r == spec_zero_copy_candidate(s@, code),
{
    let mut i: usize = 0;
    while i < s.len()
        invariant
            0 <= i <= s@.len(),
            forall|j: int| 0 <= j < i ==> (#[trigger] s@[j]).code != code,
        decreases s@.len() - i,
    {
        if s[i].code == code {
            return true;
        }
        i += 1;
    }
    false
}

/// The refresh-rate bound derived from an output's current mode: a
/// positive millihertz refresh bounds the rate, anything else leaves it
/// unbounded.
pub open spec fn spec_refresh_bound(refresh: i32) -> Option<u32> {
    if refresh > 0 {
        Some(refresh as u32)
    } else {
        None
    }
}

/// The capabilities contributed by the zero-copy candidates, in arrival
/// order, skipping codes outside the supported set.
pub open spec fn spec_dmabuf_caps(s: Seq<FrameDmabufFormat>, bound: Option<u32>) -> Seq<CapsEntry>
    decreases s.len(),
{
    if s.len() == 0 {
        Seq::empty()
    } else {
        let rest = spec_dmabuf_caps(s.drop_last(), bound);
        match spec_format_from_drm_fourcc(s.last().code) {
            Some(format) => rest.push(
                CapsEntry {
                    format,
                    width: s.last().width,
                    height: s.last().height,
                    refresh_mhz_bound: bound,
                },
            ),
            None => rest,
        }
    }
}

/// The capabilities contributed by the shared-memory candidates, in
/// arrival order, skipping codes outside the supported set.
pub open spec fn spec_shm_caps(s: Seq<FrameShmFormat>, bound: Option<u32>) -> Seq<CapsEntry>
    decreases s.len(),
{
    if s.len() == 0 {
        Seq::empty()
    } else {
        let rest = spec_shm_caps(s.drop_last(), bound);
        match spec_format_from_wl_shm(s.last().code) {
            Some(format) => rest.push(
                CapsEntry {
                    format,
                    width: s.last().width,
                    height: s.last().height,
                    refresh_mhz_bound: bound,
                },
            ),
            None => rest,
        }
    }
}

/// The buffer-pool configuration decided for a negotiated format, given
/// the session's transport capabilities and the frame's candidate sets;
/// or the reason none can be decided.
///
/// Zero-copy eligibility compares fourcc codes only (geometry is already
/// negotiated through the capabilities).  The shared-memory path demands
/// that the compositor's advertised stride equal the negotiated layout's
/// stride exactly; re-deriving capabilities to match is deliberately not
/// attempted.
pub open spec fn spec_decide_allocation(
    zero_copy_available: bool,
    dma_heap_available: bool,
    shm: Seq<FrameShmFormat>,
    dmabuf: Seq<FrameDmabufFormat>,
    video: VideoCaps,
    pools: Option<(u32, u32)>,
) -> Result<PoolConfig, DecideError> {
    let kind = spec_select_allocator(
        spec_zero_copy_candidate(dmabuf, spec_format_to_drm_fourcc(video.format)),
        zero_copy_available,
        dma_heap_available,
    );
    let params_align: u32 = if kind is SealedSharedMemory {
        0
    } else {
        ZERO_COPY_PARAMS_ALIGN
    };
    let video_alignment: Option<u32> = if kind is SealedSharedMemory {
        None
    } else {
        Some(ZERO_COPY_STRIDE_ALIGN)
    };
    let mask: u32 = if kind is SealedSharedMemory {
        0
    } else {
        ZERO_COPY_PARAMS_ALIGN | ZERO_COPY_STRIDE_ALIGN
    };
    match spec_video_layout(video.format, video.width, video.height, mask) {
        None => Err(DecideError::LayoutUnrepresentable),
        Some(layout) => {
            if kind is SealedSharedMemory && spec_first_shm(
                shm,
                spec_format_to_wl_shm(video.format),
            ) is None {
                Err(DecideError::NoShmCandidate)
            } else if kind is SealedSharedMemory && spec_first_shm(
                shm,
                spec_format_to_wl_shm(video.format),
            ).unwrap().stride != layout.stride {
                Err(DecideError::StrideMismatch)
            } else if layout.size > u32::MAX {
                Err(DecideError::SizeOverflow)
            } else {
                Ok(
                    PoolConfig {
                        caps: Some(video),
                        size: layout.size as u32,
                        min_buffers: match pools {
                            Some(p) => p.0,
                            None => 0,
                        },
                        max_buffers: match pools {
                            Some(p) => p.1,
                            None => 0,
                        },
                        allocator: Some(kind),
                        params_align,
                        video_alignment,
                        add_video_meta: true,
                    },
                )
            }
        },
    }
}

/// The capture session: the output registry, the transport's zero-copy
/// capabilities, the requested target output, and at most one in-flight
/// frame request — never two.
#[derive(Debug)]
pub struct CaptureSession {
    pub registry: OutputRegistry,
    /// Whether the transport can import GPU buffers at all.
    pub zero_copy_available: bool,
    /// Whether a kernel DMA heap device is present.
    pub dma_heap_available: bool,
    /// The requested output name; `None` targets the first output.
    pub output_name: Option<String>,
    pub current_frame: Option<FrameInFlight>,
    /// Identity for the next frame object.
    pub next_request_id: u64,
}

impl CaptureSession {
    /// A session over a populated registry, with no frame in flight.
    pub fn new(
        registry: OutputRegistry,
        zero_copy_available: bool,
        dma_heap_available: bool,
        output_name: Option<String>,
    ) -> (r: CaptureSession)
        ensures
            r.registry == registry,
            r.zero_copy_available == zero_copy_available,
            r.dma_heap_available == dma_heap_available,
            r.output_name == output_name,
            r.current_frame is None,
            r.next_request_id == 0,
    {
        CaptureSession {
            registry,
            zero_copy_available,
            dma_heap_available,
            output_name,
            current_frame: None,
            next_request_id: 0,
        }
    }

    /// Point the session at another output (or back at the default).  A
    /// control-plane setting: it never touches the frame in flight, only
    /// which output the next capture request targets.
    pub fn set_output_name(&mut self, output_name: Option<String>)
        ensures
            final(self).output_name == output_name,
            final(self).registry == old(self).registry,
            final(self).zero_copy_available == old(self).zero_copy_available,
            final(self).dma_heap_available == old(self).dma_heap_available,
            final(self).current_frame == old(self).current_frame,
            final(self).next_request_id == old(self).next_request_id,
    {
        self.output_name = output_name;
    }

    /// Arm the next frame: resolve the target output and track a fresh
    /// request for it.  Requires that no request is in flight — the
    /// session never holds two — and that output discovery has finished,
    /// since selection reads output names.
    pub fn request_capture(&mut self) -> (r: Result<CaptureCommand, SelectError>)
        requires
            old(self).current_frame is None,
            old(self).next_request_id < u64::MAX,
        ensures
            match r {
                Ok(cmd) => {
                    &&& cmd.request_id == old(self).next_request_id
                    &&& final(self).next_request_id == old(self).next_request_id + 1
                    &&& final(self).current_frame matches Some(f) && f.id == cmd.request_id
                        && f.request@ == (crate::frame::FrameModel {
                        target_output: cmd.output_index as int,
                        shm_formats: Seq::<FrameShmFormat>::empty(),
                        dmabuf_formats: Seq::<FrameDmabufFormat>::empty(),
                        phase: FramePhase::Requested,
                        flags: None,
                    })
                    &&& match old(self).output_name {
                        Some(n) => 0 <= cmd.output_index < old(self).registry@.len() && old(self).registry@[cmd.output_index as int].name == n@ && (forall|j: int|
                            0 <= j < cmd.output_index ==> (#[trigger] old(self).registry@[j]).name != n@),
                        None => cmd.output_index == 0 && old(self).registry@.len() > 0,
                    }
                },
                Err(e) => *final(self) == *old(self) && (match old(self).output_name {
                    Some(n) => e == SelectError::NamedOutputNotFound && (forall|j: int|
                        0 <= j < old(self).registry@.len() ==> (#[trigger] old(self).registry@[j]).name != n@),
                    None => e == SelectError::NoOutputs && old(self).registry@.len() == 0,
                }),
            },
            final(self).registry == old(self).registry,
            final(self).zero_copy_available == old(self).zero_copy_available,
            final(self).dma_heap_available == old(self).dma_heap_available,
            final(self).output_name == old(self).output_name,
    {
        let output_index = match self.registry.select(self.output_name.as_ref()) {
            Ok(i) => i,
            Err(e) => {
                return Err(e);
            },
        };
        let request_id = self.next_request_id;
        self.next_request_id = request_id + 1;
        self.current_frame = Some(
            FrameInFlight { id: request_id, request: FrameRequest::new(output_index) },
        );
        Ok(CaptureCommand { request_id, output_index })
    }

    /// Feed one inbound frame event, validated against the single
    /// currently tracked request: an event for another request object, or
    /// with none in flight, is a non-recoverable invariant violation.
    pub fn handle_frame_event(&mut self, request_id: u64, ev: FrameEvent) -> (r: Result<
        (),
        ProtocolViolation,
    >)
        ensures
            final(self).registry == old(self).registry,
            final(self).output_name == old(self).output_name,
            final(self).next_request_id == old(self).next_request_id,
            final(self).zero_copy_available == old(self).zero_copy_available,
            final(self).dma_heap_available == old(self).dma_heap_available,
            match old(self).current_frame {
                None => r == Err::<(), ProtocolViolation>(ProtocolViolation::NoFrame) && *final(self) == *old(self),
                Some(f) => {
                    if f.id != request_id {
                        r == Err::<(), ProtocolViolation>(ProtocolViolation::WrongFrame) && *final(self) == *old(self)
                    } else {
                        match spec_frame_step(f.request@, ev) {
                            Some(next) => r is Ok && (final(self).current_frame matches Some(g)
                                && g.id == f.id && g.request@ == next),
                            None => r == Err::<(), ProtocolViolation>(
                                ProtocolViolation::UnexpectedFrameEvent,
                            ) && *final(self) == *old(self),
                        }
                    }
                },
            },
    {
        match &mut self.current_frame {
            None => Err(ProtocolViolation::NoFrame),
            Some(f) => {
                if f.id != request_id {
                    return Err(ProtocolViolation::WrongFrame);
                }
                f.request.handle_event(ev)
            },
        }
    }

    /// Whether all candidate formats for the current frame have been
    /// announced: the completion predicate the dispatch loop blocks on
    /// during format accumulation.
    pub fn formats_done(&self) -> (r: bool)
        ensures
            r == (self.current_frame matches Some(f) && spec_formats_announced(f.request@.phase)),
    {
        match &self.current_frame {
            Some(f) => f.request.formats_done(),
            None => false,
        }
    }

    /// Whether the current frame has reached a terminal state: the
    /// completion predicate the dispatch loop blocks on after a copy.
    pub fn frame_terminated(&self) -> (r: bool)
        ensures
            r == (self.current_frame matches Some(f) && f.request@.phase is Terminal),
    {
        match &self.current_frame {
            Some(f) => f.request.terminal().is_some(),
            None => false,
        }
    }

    /// Issue the copy for the current frame into the caller's buffer
    /// handle.  Legal exactly once, after all formats were announced.
    pub fn issue_copy(&mut self) -> (r: Result<CopyCommand, ProtocolViolation>)
        ensures
            final(self).registry == old(self).registry,
            final(self).output_name == old(self).output_name,
            final(self).next_request_id == old(self).next_request_id,
            final(self).zero_copy_available == old(self).zero_copy_available,
            final(self).dma_heap_available == old(self).dma_heap_available,
            match old(self).current_frame {
                None => r == Err::<CopyCommand, ProtocolViolation>(ProtocolViolation::NoFrame)
                    && *final(self) == *old(self),
                Some(f) => {
                    if f.request@.phase is ReadyToCopy {
                        r == Ok::<CopyCommand, ProtocolViolation>(CopyCommand { request_id: f.id })
                            && (final(self).current_frame matches Some(g) && g.id == f.id
                            && g.request@ == (crate::frame::FrameModel {
                            phase: FramePhase::Copying,
                            ..f.request@
                        }))
                    } else {
                        r == Err::<CopyCommand, ProtocolViolation>(
                            ProtocolViolation::UnexpectedFrameEvent,
                        ) && *final(self) == *old(self)
                    }
                },
            },
    {
        match &mut self.current_frame {
            None => Err(ProtocolViolation::NoFrame),
            Some(f) => {
                match f.request.begin_copy() {
                    Ok(()) => Ok(CopyCommand { request_id: f.id }),
                    Err(e) => Err(e),
                }
            },
        }
    }

    /// Complete the terminated frame and immediately arm the next one
    /// (continuous re-arming, also after a failure).  Returns the
    /// terminal outcome, the finished frame object to destroy, and the
    /// already-armed next capture.
    pub fn finish_frame(&mut self) -> (r: Result<FinishedFrame, SessionError>)
        requires
            old(self).next_request_id < u64::MAX,
        ensures
            final(self).registry == old(self).registry,
            final(self).output_name == old(self).output_name,
            final(self).zero_copy_available == old(self).zero_copy_available,
            final(self).dma_heap_available == old(self).dma_heap_available,
            match old(self).current_frame {
                None => r == Err::<FinishedFrame, SessionError>(
                    SessionError::Violation(ProtocolViolation::NoFrame),
                ) && *final(self) == *old(self),
                Some(f) => match f.request@.phase {
                    FramePhase::Terminal(t) => match r {
                        Ok(done) => {
                            &&& done.terminal == t
                            &&& done.destroy_request == f.id
                            &&& done.next.request_id == old(self).next_request_id
                            &&& final(self).next_request_id == old(self).next_request_id + 1
                            &&& final(self).current_frame matches Some(g) && g.id
                                == done.next.request_id && g.request@.phase is Requested
                                && g.request@.shm_formats.len() == 0
                                && g.request@.dmabuf_formats.len() == 0
                                && g.request@.target_output == done.next.output_index as int
                        },
                        Err(e) => {
                            &&& final(self).current_frame is None
                            &&& final(self).next_request_id == old(self).next_request_id
                            &&& match old(self).output_name {
                                Some(n) => e == SessionError::Select(
                                    SelectError::NamedOutputNotFound,
                                ) && (forall|j: int|
                                    0 <= j < old(self).registry@.len() ==> (#[trigger] old(
                                        self,
                                    ).registry@[j]).name != n@),
                                None => e == SessionError::Select(SelectError::NoOutputs) && old(
                                    self,
                                ).registry@.len() == 0,
                            }
                        },
                    },
                    _ => r == Err::<FinishedFrame, SessionError>(
                        SessionError::Violation(ProtocolViolation::UnexpectedFrameEvent),
                    ) && *final(self) == *old(self),
                },
            },
    {
        let (terminal, destroy_request) = match &self.current_frame {
            None => {
                return Err(SessionError::Violation(ProtocolViolation::NoFrame));
            },
            Some(f) => {
                match f.request.terminal() {
                    Some(t) => (t, f.id),
                    None => {
                        return Err(
                            SessionError::Violation(ProtocolViolation::UnexpectedFrameEvent),
                        );
                    },
                }
            },
        };
        self.current_frame = None;
        let next = match self.request_capture() {
            Ok(cmd) => cmd,
            Err(e) => {
                return Err(SessionError::Select(e));
            },
        };
        Ok(FinishedFrame { terminal, destroy_request, next })
    }

    /// The union of currently negotiable formats: each advertised
    /// candidate the library supports, tagged with its geometry and the
    /// captured output's refresh-rate bound.  Zero-copy candidates come
    /// first, in arrival order, then shared-memory candidates.
    ///
    /// Requires finished output discovery (the refresh rate is read from
    /// the selected output) and a tracked frame (its candidate sets are
    /// read).
    pub fn caps(&self) -> (r: Result<Vec<CapsEntry>, SelectError>)
        requires
            self.current_frame is Some,
            forall|i: int| 0 <= i < self.registry@.len() ==> (#[trigger] self.registry@[i]).done,
        ensures
            match r {
                Ok(entries) => exists|oi: int|
                    {
                        &&& 0 <= oi < self.registry@.len()
                        &&& entries@ == spec_dmabuf_caps(
                            self.current_frame.unwrap().request@.dmabuf_formats,
                            spec_refresh_bound(self.registry@[oi].mode.refresh),
                        ) + spec_shm_caps(
                            self.current_frame.unwrap().request@.shm_formats,
                            spec_refresh_bound(self.registry@[oi].mode.refresh),
                        )
                        &&& match self.output_name {
                            Some(n) => self.registry@[oi].name == n@,
                            None => oi == 0,
                        }
                    },
                Err(e) => match self.output_name {
                    Some(n) => e == SelectError::NamedOutputNotFound && (forall|j: int|
                        0 <= j < self.registry@.len() ==> (#[trigger] self.registry@[j]).name
                            != n@),
                    None => e == SelectError::NoOutputs && self.registry@.len() == 0,
                },
            },
    {
        let output_index = match self.registry.select(self.output_name.as_ref()) {
            Ok(i) => i,
            Err(e) => {
                return Err(e);
            },
        };
        let refresh = self.registry.outputs[output_index].mode.refresh;
        let bound: Option<u32> = if refresh > 0 {
            Some(refresh as u32)
        } else {
            None
        };
        proof {
            assert(self.registry@[output_index as int] == self.registry.outputs@[output_index
                as int]@);
        }
        let frame = match &self.current_frame {
            Some(f) => &f.request,
            None => {
                unreached()
            },
        };
        let mut entries: Vec<CapsEntry> = Vec::new();
        let ghost dmabuf_seq = frame.dmabuf_formats@;
        let mut i: usize = 0;
        while i < frame.dmabuf_formats.len()
            invariant
                0 <= i <= dmabuf_seq.len(),
                frame.dmabuf_formats@ == dmabuf_seq,
                entries@ == spec_dmabuf_caps(dmabuf_seq.take(i as int), bound),
            decreases dmabuf_seq.len() - i,
        {
            let cand = frame.dmabuf_formats[i];
            if let Some(format) = gst_video_format_from_drm_fourcc(cand.code) {
                entries.push(
                    CapsEntry {
                        format,
                        width: cand.width,
                        height: cand.height,
                        refresh_mhz_bound: bound,
                    },
                );
            }
            proof {
                assert(dmabuf_seq.take(i + 1 as int).drop_last() =~= dmabuf_seq.take(i as int));
                assert(dmabuf_seq.take(i + 1 as int).last() == dmabuf_seq[i as int]);
            }
            i += 1;
        }
        proof {
            assert(dmabuf_seq.take(dmabuf_seq.len() as int) =~= dmabuf_seq);
        }
        let ghost dmabuf_entries = entries@;
        let ghost shm_seq = frame.shm_formats@;
        let mut k: usize = 0;
        while k < frame.shm_formats.len()
            invariant
                0 <= k <= shm_seq.len(),
                frame.shm_formats@ == shm_seq,
                entries@ == dmabuf_entries + spec_shm_caps(shm_seq.take(k as int), bound),
            decreases shm_seq.len() - k,
        {
            let cand = frame.shm_formats[k];
            if let Some(format) = gst_video_format_from_wl_shm(cand.code) {
                entries.push(
                    CapsEntry {
                        format,
                        width: cand.width,
                        height: cand.height,
                        refresh_mhz_bound: bound,
                    },
                );
            }
            proof {
                assert(shm_seq.take(k + 1 as int).drop_last() =~= shm_seq.take(k as int));
                assert(shm_seq.take(k + 1 as int).last() == shm_seq[k as int]);
            }
            k += 1;
        }
        proof {
            assert(shm_seq.take(shm_seq.len() as int) =~= shm_seq);
        }
        Ok(entries)
    }

    /// Decide the buffer-pool configuration for a negotiated format:
    /// choose the allocator per the zero-copy eligibility rule, fix the
    /// alignment parameters of the chosen path, and size the pool to the
    /// negotiated layout.  Requires a tracked frame, whose candidate sets
    /// drive the decision.
    pub fn decide_allocation(&self, video: VideoCaps, pools: Option<(u32, u32)>) -> (r: Result<
        PoolConfig,
        DecideError,
    >)
        requires
            self.current_frame is Some,
        ensures
            r == spec_decide_allocation(
                self.zero_copy_available,
                self.dma_heap_available,
                self.current_frame.unwrap().request@.shm_formats,
                self.current_frame.unwrap().request@.dmabuf_formats,
                video,
                pools,
            ),
    {
        let frame = match &self.current_frame {
            Some(f) => &f.request,
            None => {
                unreached()
            },
        };
        let fourcc = gst_video_format_to_drm_fourcc(video.format);
        let is_zero_copy_format = contains_dmabuf_code(&frame.dmabuf_formats, fourcc);
        let kind = select_allocator(
            is_zero_copy_format,
            self.zero_copy_available,
            self.dma_heap_available,
        );
        let is_sealed = matches!(kind, AllocatorKind::SealedSharedMemory);
        let params_align: u32 = if is_sealed {
            0
        } else {
            ZERO_COPY_PARAMS_ALIGN
        };
        let video_alignment: Option<u32> = if is_sealed {
            None
        } else {
            Some(ZERO_COPY_STRIDE_ALIGN)
        };
        let mask: u32 = if is_sealed {
            0
        } else {
            ZERO_COPY_PARAMS_ALIGN | ZERO_COPY_STRIDE_ALIGN
        };
        let layout = match video_layout(video.format, video.width, video.height, mask) {
            Some(layout) => layout,
            None => {
                return Err(DecideError::LayoutUnrepresentable);
            },
        };
        if is_sealed {
            let shm_code = gst_video_format_to_wl_shm(video.format);
            let candidate = match find_first_shm(&frame.shm_formats, shm_code) {
                Some(candidate) => candidate,
                None => {
                    return Err(DecideError::NoShmCandidate);
                },
            };
            if candidate.stride != layout.stride {
                return Err(DecideError::StrideMismatch);
            }
        }
        if layout.size > 0xFFFF_FFFF {
            return Err(DecideError::SizeOverflow);
        }
        let (min_buffers, max_buffers): (u32, u32) = match pools {
            Some(p) => p,
            None => (0, 0),
        };
        Ok(
            PoolConfig {
                caps: Some(video),
                size: layout.size as u32,
                min_buffers,
                max_buffers,
                allocator: Some(kind),
                params_align,
                video_alignment,
                add_video_meta: true,
            },
        )
    }
}

} // verus!
