//! The buffer pool: owns the chosen allocator and alignment parameters,
//! fabricates buffers matching the configured video layout, and pairs
//! each buffer's backing region with the compositor-import instructions
//! whose execution yields the buffer's external handle.
//!
//! The pool is a two-state machine, `Unconfigured` or `Configured`,
//! re-entrant via reconfiguration.  A failed configuration never disturbs
//! previously committed state.

use vstd::prelude::*;

use crate::allocators::{
    AllocError, AllocatorKind, GbmMemoryAllocator, GpuAllocationRequest, MemfdMemoryAllocator,
    Region, RegionBacking, DRM_MODIFIER_LINEAR,
};
use crate::format::{
    gst_video_format_to_drm_fourcc, gst_video_format_to_wl_shm, spec_format_to_drm_fourcc,
    spec_format_to_wl_shm, VideoFormat,
};
use crate::layout::{spec_video_layout, video_layout, VideoLayout};

verus! {

/// Requested capabilities: the negotiated format and frame dimensions.
#[derive(Clone, Copy, Debug, PartialEq, Eq, Structural)]
pub struct VideoCaps {
    pub format: VideoFormat,
    pub width: u32,
    pub height: u32,
}

/// One configuration request for the pool.
#[derive(Clone, Copy, Debug, PartialEq, Eq, Structural)]
pub struct PoolConfig {
    /// The capabilities the pool must produce buffers for; a request
    /// without capabilities is rejected.
    pub caps: Option<VideoCaps>,
    /// Requested per-buffer size; rejected when smaller than the layout
    /// computed from the capabilities and alignment.
    pub size: u32,
    pub min_buffers: u32,
    pub max_buffers: u32,
    /// The allocator to draw regions from; sealed shared memory when
    /// none is named.
    pub allocator: Option<AllocatorKind>,
    /// Alignment mask of the allocation parameters.
    pub params_align: u32,
    /// Per-plane stride alignment mask, when the alignment option is
    /// requested.
    pub video_alignment: Option<u32>,
    /// Whether buffers carry explicit per-plane layout metadata, a
    /// precondition for honouring the alignment option.
    pub add_video_meta: bool,
}

/// The committed state of a configured pool.
#[derive(Clone, Copy, Debug, PartialEq, Eq, Structural)]
pub struct PoolConfigured {
    pub layout: VideoLayout,
    pub allocator: AllocatorKind,
    /// The stride alignment the layout was computed with.
    pub align_mask: u32,
    pub size: u32,
    pub min_buffers: u32,
    pub max_buffers: u32,
    pub add_video_meta: bool,
}

/// The pool's two states.
#[derive(Clone, Copy, Debug, PartialEq, Eq, Structural)]
pub enum PoolState {
    Unconfigured,
    Configured(PoolConfigured),
}

/// The stride alignment a configuration asks for: the allocation
/// parameters' mask widened by the requested per-plane stride mask.  The
/// alignment option only applies when layout metadata travels with the
/// buffers.
pub open spec fn spec_effective_align(config: PoolConfig) -> u32 {
    match config.video_alignment {
        Some(stride_mask) => {
            if config.add_video_meta {
                config.params_align | stride_mask
            } else {
                0
            }
        },
        None => 0,
    }
}

/// What a configuration request commits, or `None` when it must be
/// rejected: no capabilities, a layout the capabilities cannot form, or a
/// requested size below the layout's total size (after alignment growth).
pub open spec fn spec_configured(config: PoolConfig) -> Option<PoolConfigured> {
    match config.caps {
        None => None,
        Some(caps) => {
            let mask = spec_effective_align(config);
            match spec_video_layout(caps.format, caps.width, caps.height, mask) {
                None => None,
                Some(layout) => {
                    if config.size < layout.size {
                        None
                    } else {
                        Some(
                            PoolConfigured {
                                layout,
                                allocator: match config.allocator {
                                    Some(kind) => kind,
                                    None => AllocatorKind::SealedSharedMemory,
                                },
                                align_mask: mask,
                                size: config.size,
                                min_buffers: config.min_buffers,
                                max_buffers: config.max_buffers,
                                add_video_meta: config.add_video_meta,
                            },
                        )
                    }
                },
            }
        },
    }
}

/// One plane of a GPU-buffer import: intra-region offset, stride and the
/// split halves of the layout modifier (always linear here).
#[derive(Clone, Copy, Debug, PartialEq, Eq, Structural)]
pub struct PlaneImport {
    pub plane_index: u32,
    pub offset: u32,
    pub stride: u32,
    pub modifier_hi: u32,
    pub modifier_lo: u32,
}

/// The exchange the compositor side must run to import a buffer's backing
/// region and hand back an external buffer handle.  Every field is fixed
/// before any protocol object is created, so no failure can leave a
/// partially created exchange behind.
#[derive(Debug)]
pub enum ImportPlan {
    /// Wrap the region's single descriptor in a shared-memory pool, then
    /// create one buffer at the given geometry; the pool object is
    /// destroyed right after.
    ShmPool {
        pool_size: u64,
        offset: u32,
        width: u32,
        height: u32,
        stride: u32,
        /// `wl_shm` pixel code of the layout's format.
        format_code: u32,
    },
    /// Describe each plane of the exported GPU buffer, then create the
    /// buffer immediately; the params object is destroyed right after.
    DmabufParams { planes: Vec<PlaneImport>, width: u32, height: u32, fourcc: u32 },
}

/// The compositor-importable handle attached to a fabricated buffer.  It
/// is owned by the buffer and must be released exactly once.
#[derive(Clone, Copy, Debug, PartialEq, Eq, Structural)]
pub struct WaylandBufferMeta {
    /// The external buffer handle, named by the protocol object id the
    /// import produced.
    pub wl_buffer: u64,
}

/// A fabricated buffer: its backing region, the import exchange that
/// yields (or yielded) its external handle, and the handle itself once
/// attached.
#[derive(Debug)]
pub struct Buffer {
    pub region: Region,
    pub import: ImportPlan,
    pub meta: Option<WaylandBufferMeta>,
}

/// Whether a buffer's import plan is the one the committed configuration
/// dictates: geometry and strides from the layout, the format translated
/// into the vocabulary of the chosen path, only the linear modifier, and
/// the plan's kind matching the allocator kind.
pub open spec fn spec_import_matches(c: PoolConfigured, b: Buffer) -> bool {
    match b.import {
        ImportPlan::ShmPool { pool_size, offset, width, height, stride, format_code } => {
            &&& c.allocator is SealedSharedMemory
            &&& b.region.backing is SealedShm
            &&& pool_size == b.region.size
            &&& offset == 0
            &&& width == c.layout.width
            &&& height == c.layout.height
            &&& stride == c.layout.stride
            &&& format_code == spec_format_to_wl_shm(c.layout.format)
        },
        ImportPlan::DmabufParams { planes, width, height, fourcc } => {
            &&& !(c.allocator is SealedSharedMemory)
            &&& b.region.backing is Exported
            &&& planes@.len() == 1
            &&& planes@[0] == (PlaneImport {
                plane_index: 0,
                offset: 0,
                stride: c.layout.stride,
                modifier_hi: 0,
                modifier_lo: 0,
            })
            &&& width == c.layout.width
            &&& height == c.layout.height
            &&& fourcc == spec_format_to_drm_fourcc(c.layout.format)
        },
    }
}

/// Everything a fabricated buffer owes the committed configuration: a
/// backing region at least as large as the layout's total size, and the
/// matching import plan.
pub open spec fn spec_buffer_matches(c: PoolConfigured, b: Buffer) -> bool {
    &&& b.region.size >= c.layout.size
    &&& spec_import_matches(c, b)
}

/// The buffer pool.
#[derive(Debug)]
pub struct WaylandBufferPool {
    pub state: PoolState,
}

impl WaylandBufferPool {
    /// A fresh, unconfigured pool.
    pub fn new() -> (r: WaylandBufferPool)
        ensures
            r.state is Unconfigured,
    {
        WaylandBufferPool { state: PoolState::Unconfigured }
    }

    /// The committed configuration, if any.
    pub open spec fn spec_config(&self) -> Option<PoolConfigured> {
        match self.state {
            PoolState::Configured(c) => Some(c),
            PoolState::Unconfigured => None,
        }
    }

    /// Whether the pool has a committed configuration.
    pub fn is_configured(&self) -> (r: bool)
        ensures
            r == (self.state is Configured),
    {
        matches!(self.state, PoolState::Configured(_))
    }

    /// The committed configuration, for callers and tests.
    pub fn current_config(&self) -> (r: Option<PoolConfigured>)
        ensures
            r == self.spec_config(),
    {
        match self.state {
            PoolState::Configured(c) => Some(c),
            PoolState::Unconfigured => None,
        }
    }

    /// Apply a configuration request.  Returns whether it was accepted;
    /// a rejected request leaves any previously committed configuration
    /// untouched.
    pub fn set_config(&mut self, config: &PoolConfig) -> (ok: bool)
        ensures
            match spec_configured(*config) {
                Some(c) => ok && final(self).state == PoolState::Configured(c),
                None => !ok && *final(self) == *old(self),
            },
    {
        let caps = match config.caps {
            Some(caps) => caps,
            None => {
                return false;
            },
        };
        let mask: u32 = match config.video_alignment {
            Some(stride_mask) => {
                if config.add_video_meta {
                    config.params_align | stride_mask
                } else {
                    0
                }
            },
            None => 0,
        };
        let layout = match video_layout(caps.format, caps.width, caps.height, mask) {
            Some(layout) => layout,
            None => {
                return false;
            },
        };
        if (config.size as u64) < layout.size {
            return false;
        }
        let allocator = match config.allocator {
            Some(kind) => kind,
            None => AllocatorKind::SealedSharedMemory,
        };
        self.state = PoolState::Configured(
            PoolConfigured {
                layout,
                allocator,
                align_mask: mask,
                size: config.size,
                min_buffers: config.min_buffers,
                max_buffers: config.max_buffers,
                add_video_meta: config.add_video_meta,
            },
        );
        true
    }

    /// Fabricate one buffer over sealed shared memory: allocate a region
    /// sized to the layout and pair it with the shared-memory import
    /// plan.  The external handle is attached by whoever runs the plan.
    pub fn alloc_buffer(&self) -> (r: Result<Buffer, AllocError>)
        requires
            self.spec_config() matches Some(c) && c.allocator is SealedSharedMemory,
        ensures
            r matches Ok(b) ==> spec_buffer_matches(self.spec_config().unwrap(), b) && b.meta
                is None && b.region.size == self.spec_config().unwrap().layout.size,
            r matches Err(e) ==> e == AllocError::CreateFailed || e == AllocError::SizeFailed,
    {
        let c = match &self.state {
            PoolState::Configured(c) => c,
            PoolState::Unconfigured => {
                unreached()
            },
        };
        let allocator = MemfdMemoryAllocator {};
        let region = match allocator.allocate(c.layout.size) {
            Ok(region) => region,
            Err(e) => {
                return Err(e);
            },
        };
        let format_code = gst_video_format_to_wl_shm(c.layout.format);
        let import = ImportPlan::ShmPool {
            pool_size: region.size,
            offset: 0,
            width: c.layout.width,
            height: c.layout.height,
            stride: c.layout.stride,
            format_code,
        };
        Ok(Buffer { region, import, meta: None })
    }

    /// What the GPU-side backend must allocate for the committed layout.
    pub fn gpu_allocation_request(&self) -> (r: GpuAllocationRequest)
        requires
            self.spec_config() matches Some(c) && !(c.allocator is SealedSharedMemory),
        ensures
            r.width == self.spec_config().unwrap().layout.width,
            r.height == self.spec_config().unwrap().layout.height,
            r.fourcc == spec_format_to_drm_fourcc(self.spec_config().unwrap().layout.format),
            r.modifier == DRM_MODIFIER_LINEAR,
            r.min_size == self.spec_config().unwrap().layout.size,
    {
        let c = match &self.state {
            PoolState::Configured(c) => c,
            PoolState::Unconfigured => {
                unreached()
            },
        };
        let gbm = GbmMemoryAllocator {};
        gbm.allocation_request(&c.layout)
    }

    /// Fabricate one buffer over an exported GPU buffer object.  The
    /// export's real size is checked against the layout: an undersized
    /// export is a hard failure.  On success the buffer carries the
    /// multi-plane import plan with the linear modifier.
    pub fn alloc_buffer_from_export(&self, fd: i32, exported_size: u64) -> (r: Result<
        Buffer,
        AllocError,
    >)
        requires
            self.spec_config() matches Some(c) && !(c.allocator is SealedSharedMemory),
        ensures
            r matches Ok(b) ==> spec_buffer_matches(self.spec_config().unwrap(), b) && b.meta
                is None && b.region.backing == RegionBacking::Exported(fd) && b.region.size
                == exported_size,
            r is Err <==> exported_size < self.spec_config().unwrap().layout.size,
    {
        let c = match &self.state {
            PoolState::Configured(c) => c,
            PoolState::Unconfigured => {
                unreached()
            },
        };
        let gbm = GbmMemoryAllocator {};
        let region = match gbm.allocate(fd, exported_size, &c.layout) {
            Ok(region) => region,
            Err(e) => {
                return Err(e);
            },
        };
        let mut planes: Vec<PlaneImport> = Vec::new();
        planes.push(
            PlaneImport {
                plane_index: 0,
                offset: 0,
                stride: c.layout.stride,
                modifier_hi: 0,
                modifier_lo: 0,
            },
        );
        let fourcc = gst_video_format_to_drm_fourcc(c.layout.format);
        let import = ImportPlan::DmabufParams {
            planes,
            width: c.layout.width,
            height: c.layout.height,
            fourcc,
        };
        Ok(Buffer { region, import, meta: None })
    }

    /// Release the buffer's external handle.  This is mandatory on every
    /// teardown path: the returned handle, if any, must be destroyed by
    /// the caller, and a second release finds nothing.
    pub fn free_buffer(&self, buffer: &mut Buffer) -> (r: Option<WaylandBufferMeta>)
        ensures
            r == old(buffer).meta,
            final(buffer).meta is None,
            final(buffer).region == old(buffer).region,
            final(buffer).import == old(buffer).import,
    {
        let r = buffer.meta;
        buffer.meta = None;
        r
    }
}

impl WaylandBufferMeta {
    /// Attach the external handle the import produced to its buffer.
    pub fn add(buffer: &mut Buffer, wl_buffer: u64)
        ensures
            final(buffer).meta == Some(WaylandBufferMeta { wl_buffer }),
            final(buffer).region == old(buffer).region,
            final(buffer).import == old(buffer).import,
    {
        buffer.meta = Some(WaylandBufferMeta { wl_buffer });
    }

    /// The stored external buffer handle.
    pub fn wl_buffer(&self) -> (r: u64)
        ensures
            r == self.wl_buffer,
    {
        self.wl_buffer
    }
}

/// Law: a buffer fabricated under a committed configuration is backed by
/// a region no smaller than the configured layout's total size.
pub proof fn lemma_buffer_covers_layout(c: PoolConfigured, b: Buffer)
    requires
        spec_buffer_matches(c, b),
    ensures
        b.region.size >= c.layout.size,
{
}

/// Law: against one unchanged configuration, all fabricated buffers are
/// interchangeable: same geometry and stride, and the same external-handle
/// kind (all shared-memory or all zero-copy) — the allocator never
/// switches silently without an explicit reconfiguration.
pub proof fn lemma_stable_configuration(c: PoolConfigured, b1: Buffer, b2: Buffer)
    requires
        spec_buffer_matches(c, b1),
        spec_buffer_matches(c, b2),
    ensures
        b1.import is ShmPool <==> b2.import is ShmPool,
        b1.region.backing is SealedShm <==> b2.region.backing is SealedShm,
{
}

} // verus!
