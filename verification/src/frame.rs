//! Per-frame capture handshake: request capture of an output, accumulate
//! candidate format advertisements, detect "all formats sent", issue a
//! copy, await a ready/failed terminal signal.
//!
//! Transitions are driven exclusively by inbound protocol events.  An
//! event that the current phase cannot legally receive is a
//! programmer-invariant violation: the step is refused and the request is
//! left untouched, so the caller can abort.

use vstd::prelude::*;

use crate::format::{drm_fourcc_recognized, wl_shm_code_recognized};
use crate::format::{drm_fourcc_is_known, wl_shm_code_is_known};

verus! {

/// A shared-memory buffer candidate advertised for the current frame.
#[derive(Clone, Copy, Debug, PartialEq, Eq, Structural)]
pub struct FrameShmFormat {
    /// `wl_shm` pixel code.
    pub code: u32,
    pub width: u32,
    pub height: u32,
    /// The row stride the compositor will write.
    pub stride: u32,
}

/// A zero-copy (GPU buffer) candidate advertised for the current frame.
#[derive(Clone, Copy, Debug, PartialEq, Eq, Structural)]
pub struct FrameDmabufFormat {
    /// DRM fourcc code.
    pub code: u32,
    pub width: u32,
    pub height: u32,
}

/// How a frame ended.
#[derive(Clone, Copy, Debug, PartialEq, Eq, Structural)]
pub enum FrameTerminal {
    /// The copy completed at the given presentation time.
    Ready { seconds: u64, nanoseconds: u32 },
    /// The compositor could not produce the frame.
    Failed,
}

/// Where a frame request stands in the handshake.
#[derive(Clone, Copy, Debug, PartialEq, Eq, Structural)]
pub enum FramePhase {
    /// Capture requested; no advertisement received yet.
    Requested,
    /// Candidate formats are arriving.
    AccumulatingFormats,
    /// All candidates announced; a copy may now be issued.
    ReadyToCopy,
    /// A copy was issued; awaiting the terminal signal.
    Copying,
    /// A terminal signal arrived; the request is immutable.
    Terminal(FrameTerminal),
}

/// An inbound protocol event addressed to a frame object.
#[derive(Clone, Copy, Debug, PartialEq, Eq, Structural)]
pub enum FrameEvent {
    /// A shared-memory candidate advertisement.
    Buffer { code: u32, width: u32, height: u32, stride: u32 },
    /// A zero-copy candidate advertisement.
    LinuxDmabuf { code: u32, width: u32, height: u32 },
    /// All candidate formats have been sent.
    BufferDone,
    /// The copy finished; seconds arrive split into two 32-bit halves.
    Ready { tv_sec_hi: u32, tv_sec_lo: u32, tv_nsec: u32 },
    /// The copy failed.
    Failed,
    /// Pixel-layout flags for the copied frame.
    Flags { flags: u32 },
    /// A damaged-area hint; recorded nowhere, but legal.
    Damage { x: u32, y: u32, width: u32, height: u32 },
}

/// A protocol event arrived that the receiver's state forbids: a logic
/// defect, not a runtime condition to recover from.
#[derive(Clone, Copy, Debug, PartialEq, Eq, Structural)]
pub enum ProtocolViolation {
    /// The event is illegal in the request's current phase.
    UnexpectedFrameEvent,
    /// An event was tagged for a frame other than the one in flight.
    WrongFrame,
    /// A frame event arrived while no request is in flight.
    NoFrame,
    /// An output event named an output the registry does not track.
    UnknownOutput,
}

/// The abstract state of a frame request.
pub struct FrameModel {
    pub target_output: int,
    pub shm_formats: Seq<FrameShmFormat>,
    pub dmabuf_formats: Seq<FrameDmabufFormat>,
    pub phase: FramePhase,
    pub flags: Option<u32>,
}

/// True in the phases that may still receive candidate advertisements.
pub open spec fn spec_accumulating(phase: FramePhase) -> bool {
    phase is Requested || phase is AccumulatingFormats
}

/// True once the "all formats sent" signal has been observed.
pub open spec fn spec_formats_announced(phase: FramePhase) -> bool {
    !spec_accumulating(phase)
}

/// The step the state machine makes on one inbound event: the next state,
/// or `None` when the event violates the current phase.
///
/// Candidate advertisements are collected in arrival order, without
/// deduplication; entries whose code the external vocabulary does not
/// recognize at all are skipped, not errors.
pub open spec fn spec_frame_step(m: FrameModel, ev: FrameEvent) -> Option<FrameModel> {
    match ev {
        FrameEvent::Buffer { code, width, height, stride } => {
            if spec_accumulating(m.phase) {
                Some(
                    FrameModel {
                        phase: FramePhase::AccumulatingFormats,
                        shm_formats: if wl_shm_code_recognized(code) {
                            m.shm_formats.push(FrameShmFormat { code, width, height, stride })
                        } else {
                            m.shm_formats
                        },
                        ..m
                    },
                )
            } else {
                None
            }
        },
        FrameEvent::LinuxDmabuf { code, width, height } => {
            if spec_accumulating(m.phase) {
                Some(
                    FrameModel {
                        phase: FramePhase::AccumulatingFormats,
                        dmabuf_formats: if drm_fourcc_recognized(code) {
                            m.dmabuf_formats.push(FrameDmabufFormat { code, width, height })
                        } else {
                            m.dmabuf_formats
                        },
                        ..m
                    },
                )
            } else {
                None
            }
        },
        FrameEvent::BufferDone => {
            if spec_accumulating(m.phase) {
                Some(FrameModel { phase: FramePhase::ReadyToCopy, ..m })
            } else {
                None
            }
        },
        FrameEvent::Ready { tv_sec_hi, tv_sec_lo, tv_nsec } => {
            if m.phase is Copying {
                Some(
                    FrameModel {
                        phase: FramePhase::Terminal(
                            FrameTerminal::Ready {
                                seconds: ((tv_sec_hi as u64) << 32u64) | (tv_sec_lo as u64),
                                nanoseconds: tv_nsec,
                            },
                        ),
                        ..m
                    },
                )
            } else {
                None
            }
        },
        FrameEvent::Failed => {
            if m.phase is Copying {
                Some(FrameModel { phase: FramePhase::Terminal(FrameTerminal::Failed), ..m })
            } else {
                None
            }
        },
        FrameEvent::Flags { flags } => {
            if !(m.phase is Terminal) {
                Some(FrameModel { flags: Some(flags), ..m })
            } else {
                None
            }
        },
        FrameEvent::Damage { .. } => {
            if !(m.phase is Terminal) {
                Some(m)
            } else {
                None
            }
        },
    }
}

/// One frame request: a single request/response cycle for capturing one
/// output frame.
#[derive(Debug)]
pub struct FrameRequest {
    /// Index of the output being captured, in registry order.
    pub target_output: usize,
    /// Shared-memory candidates, in arrival order, duplicates kept.
    pub shm_formats: Vec<FrameShmFormat>,
    /// Zero-copy candidates, in arrival order, duplicates kept.
    pub dmabuf_formats: Vec<FrameDmabufFormat>,
    pub phase: FramePhase,
    /// Pixel-layout flags, once announced.
    pub flags: Option<u32>,
}

impl View for FrameRequest {
    type V = FrameModel;

    open spec fn view(&self) -> FrameModel {
        FrameModel {
            target_output: self.target_output as int,
            shm_formats: self.shm_formats@,
            dmabuf_formats: self.dmabuf_formats@,
            phase: self.phase,
            flags: self.flags,
        }
    }
}

impl FrameRequest {
    /// A fresh request for the given output, in the `Requested` phase.
    pub fn new(target_output: usize) -> (r: FrameRequest)
        ensures
            r@ == (FrameModel {
                target_output: target_output as int,
                shm_formats: Seq::<FrameShmFormat>::empty(),
                dmabuf_formats: Seq::<FrameDmabufFormat>::empty(),
                phase: FramePhase::Requested,
                flags: None,
            }),
    {
        let r = FrameRequest {
            target_output,
            shm_formats: Vec::new(),
            dmabuf_formats: Vec::new(),
            phase: FramePhase::Requested,
            flags: None,
        };
        proof {
            assert(r@.shm_formats =~= Seq::<FrameShmFormat>::empty());
            assert(r@.dmabuf_formats =~= Seq::<FrameDmabufFormat>::empty());
        }
        r
    }

    /// Apply one inbound event.  Violating events leave the request
    /// untouched and report the violation.
    pub fn handle_event(&mut self, ev: FrameEvent) -> (r: Result<(), ProtocolViolation>)
        ensures
            spec_frame_step(old(self)@, ev) matches Some(next) ==> r is Ok && final(self)@ == next,
            spec_frame_step(old(self)@, ev) is None ==> r == Err::<(), ProtocolViolation>(
                ProtocolViolation::UnexpectedFrameEvent,
            ) && *final(self) == *old(self),
    {
        match ev {
            FrameEvent::Buffer { code, width, height, stride } => {
                if !self.accumulating() {
                    return Err(ProtocolViolation::UnexpectedFrameEvent);
                }
                if wl_shm_code_is_known(code) {
                    self.shm_formats.push(FrameShmFormat { code, width, height, stride });
                }
                self.phase = FramePhase::AccumulatingFormats;
                Ok(())
            },
            FrameEvent::LinuxDmabuf { code, width, height } => {
                if !self.accumulating() {
                    return Err(ProtocolViolation::UnexpectedFrameEvent);
                }
                if drm_fourcc_is_known(code) {
                    self.dmabuf_formats.push(FrameDmabufFormat { code, width, height });
                }
                self.phase = FramePhase::AccumulatingFormats;
                Ok(())
            },
            FrameEvent::BufferDone => {
                if !self.accumulating() {
                    return Err(ProtocolViolation::UnexpectedFrameEvent);
                }
                self.phase = FramePhase::ReadyToCopy;
                Ok(())
            },
            FrameEvent::Ready { tv_sec_hi, tv_sec_lo, tv_nsec } => {
                if !(matches!(self.phase, FramePhase::Copying)) {
                    return Err(ProtocolViolation::UnexpectedFrameEvent);
                }
                let seconds: u64 = ((tv_sec_hi as u64) << 32u64) | (tv_sec_lo as u64);
                self.phase = FramePhase::Terminal(
                    FrameTerminal::Ready { seconds, nanoseconds: tv_nsec },
                );
                Ok(())
            },
            FrameEvent::Failed => {
                if !(matches!(self.phase, FramePhase::Copying)) {
                    return Err(ProtocolViolation::UnexpectedFrameEvent);
                }
                self.phase = FramePhase::Terminal(FrameTerminal::Failed);
                Ok(())
            },
            FrameEvent::Flags { flags } => {
                if matches!(self.phase, FramePhase::Terminal(_)) {
                    return Err(ProtocolViolation::UnexpectedFrameEvent);
                }
                self.flags = Some(flags);
                Ok(())
            },
            FrameEvent::Damage { .. } => {
                if matches!(self.phase, FramePhase::Terminal(_)) {
                    return Err(ProtocolViolation::UnexpectedFrameEvent);
                }
                Ok(())
            },
        }
    }

    /// Issue the copy for this frame: legal exactly once, from
    /// `ReadyToCopy`, that is only after "all formats sent" was observed.
    pub fn begin_copy(&mut self) -> (r: Result<(), ProtocolViolation>)
        ensures
            old(self)@.phase is ReadyToCopy ==> r is Ok && final(self)@ == (FrameModel {
                phase: FramePhase::Copying,
                ..old(self)@
            }),
            !(old(self)@.phase is ReadyToCopy) ==> r == Err::<(), ProtocolViolation>(
                ProtocolViolation::UnexpectedFrameEvent,
            ) && *final(self) == *old(self),
    {
        if matches!(self.phase, FramePhase::ReadyToCopy) {
            self.phase = FramePhase::Copying;
            Ok(())
        } else {
            Err(ProtocolViolation::UnexpectedFrameEvent)
        }
    }

    /// Whether candidate advertisements may still arrive.
    pub fn accumulating(&self) -> (r: bool)
        ensures
            r == spec_accumulating(self@.phase),
    {
        matches!(self.phase, FramePhase::Requested | FramePhase::AccumulatingFormats)
    }

    /// Whether the "all formats sent" signal has been observed: the
    /// completion predicate of the format-accumulation dispatch phase.
    pub fn formats_done(&self) -> (r: bool)
        ensures
            r == spec_formats_announced(self@.phase),
    {
        !self.accumulating()
    }

    /// The terminal signal, once one has arrived: the completion
    /// predicate of the copy dispatch phase.
    pub fn terminal(&self) -> (r: Option<FrameTerminal>)
        ensures
            self@.phase matches FramePhase::Terminal(t) ==> r == Some(t),
            !(self@.phase is Terminal) ==> r is None,
    {
        match self.phase {
            FramePhase::Terminal(t) => Some(t),
            _ => None,
        }
    }
}

/// Everything that can advance a frame request: delivery of an inbound
/// protocol event (`handle_event`), or the session issuing the copy
/// (`begin_copy`).
#[derive(Clone, Copy, Debug, PartialEq, Eq, Structural)]
pub enum FrameAction {
    Deliver(FrameEvent),
    BeginCopy,
}

/// The transition one action makes, mirroring `handle_event` and
/// `begin_copy`: `None` when the action violates the current phase.
pub open spec fn spec_frame_act(m: FrameModel, a: FrameAction) -> Option<FrameModel> {
    match a {
        FrameAction::Deliver(ev) => spec_frame_step(m, ev),
        FrameAction::BeginCopy => {
            if m.phase is ReadyToCopy {
                Some(FrameModel { phase: FramePhase::Copying, ..m })
            } else {
                None
            }
        },
    }
}

/// A whole run of the state machine: the state after performing every
/// action in order, or `None` as soon as one violates its phase.
pub open spec fn spec_frame_run(m: FrameModel, actions: Seq<FrameAction>) -> Option<FrameModel>
    decreases actions.len(),
{
    if actions.len() == 0 {
        Some(m)
    } else {
        match spec_frame_act(m, actions[0]) {
            Some(next) => spec_frame_run(next, actions.skip(1)),
            None => None,
        }
    }
}

/// Law: a legal run that starts before the candidate announcement is
/// complete and ends after it contains the "all formats sent" signal.
pub proof fn lemma_announcement_needs_buffer_done(
    m: FrameModel,
    actions: Seq<FrameAction>,
    m2: FrameModel,
)
    requires
        !spec_formats_announced(m.phase),
        spec_frame_run(m, actions) == Some(m2),
        spec_formats_announced(m2.phase),
    ensures
        exists|k: int|
            0 <= k < actions.len() && actions[k] == FrameAction::Deliver(FrameEvent::BufferDone),
    decreases actions.len(),
{
    let a0 = actions[0];
    if a0 == FrameAction::Deliver(FrameEvent::BufferDone) {
        assert(0 <= 0 < actions.len() && actions[0] == FrameAction::Deliver(
            FrameEvent::BufferDone,
        ));
    } else {
        let next = spec_frame_act(m, a0).unwrap();
        assert(!spec_formats_announced(next.phase));
        lemma_announcement_needs_buffer_done(next, actions.skip(1), m2);
        let k = choose|k: int|
            0 <= k < actions.skip(1).len() && actions.skip(1)[k] == FrameAction::Deliver(
                FrameEvent::BufferDone,
            );
        assert(actions[k + 1] == actions.skip(1)[k]);
    }
}

/// Law: from a fresh `Requested` state, no run of the state machine
/// reaches `Copying` without first observing "all formats sent".
pub proof fn lemma_no_copy_without_all_formats(
    m: FrameModel,
    actions: Seq<FrameAction>,
    m2: FrameModel,
)
    requires
        m.phase is Requested,
        spec_frame_run(m, actions) == Some(m2),
        m2.phase is Copying,
    ensures
        exists|k: int|
            0 <= k < actions.len() && actions[k] == FrameAction::Deliver(FrameEvent::BufferDone),
{
    lemma_announcement_needs_buffer_done(m, actions, m2);
}

/// Law: inbound events alone never start a copy.  A step that ends in
/// `Copying` started there; only `begin_copy` enters the phase.
pub proof fn lemma_events_never_start_copy(m: FrameModel, ev: FrameEvent)
    ensures
        spec_frame_step(m, ev) matches Some(next) && next.phase is Copying ==> m.phase is Copying,
{
}

/// Law: the only step into `ReadyToCopy` is the "all formats sent"
/// signal.  Together with `lemma_events_never_start_copy` and
/// `begin_copy`'s contract this says no run from `Requested` reaches
/// `Copying` without first observing `BufferDone`.
pub proof fn lemma_ready_to_copy_needs_all_formats(m: FrameModel, ev: FrameEvent)
    ensures
        spec_frame_step(m, ev) matches Some(next) && next.phase is ReadyToCopy && !(m.phase
            is ReadyToCopy) ==> ev is BufferDone,
{
}

/// Law: a terminated request is unusable: every further event against it
/// is an invariant violation.
pub proof fn lemma_terminal_is_immutable(m: FrameModel, ev: FrameEvent)
    ensures
        m.phase is Terminal ==> spec_frame_step(m, ev) is None,
{
}

} // verus!
