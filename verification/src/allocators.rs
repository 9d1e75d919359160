//! Memory allocators backing captured frames, and the selection rule that
//! picks one per buffer-pool configuration.
//!
//! Three interchangeable backends produce a sized memory region:
//! anonymous sealed shared memory (the CPU-copy path), linear GPU buffer
//! objects exported by a render-node device, and the kernel's DMA
//! buffer-sharing heap.  The two GPU-side backends hand their exported
//! regions in from outside; this module verifies the region against the
//! layout it must hold.

use vstd::prelude::*;

use crate::format::{spec_format_to_drm_fourcc, gst_video_format_to_drm_fourcc};
use crate::layout::VideoLayout;

verus! {

/// The memory-layout modifier for plain row-major buffers, the only GPU
/// buffer layout this library accepts.
pub const DRM_MODIFIER_LINEAR: u64 = 0;

/// The backends a buffer pool can draw backing memory from.
#[derive(Clone, Copy, Debug, PartialEq, Eq, Structural)]
pub enum AllocatorKind {
    /// Anonymous sealed shared memory: the CPU-copy path.
    SealedSharedMemory,
    /// Linear GPU buffer objects from a render-node device.
    GpuBufferDevice,
    /// The kernel's DMA buffer-sharing heap, preferred over the render
    /// node when present.
    KernelDmaHeap,
}

/// Why an allocation failed.
#[derive(Clone, Copy, Debug, PartialEq, Eq, Structural)]
pub enum AllocError {
    /// The anonymous memory handle could not be created.
    CreateFailed,
    /// The created handle could not be grown to the requested size.
    SizeFailed,
    /// An exported GPU region is smaller than the layout needs.
    Undersized,
}

#[verifier::external_type_specification]
#[verifier::external_body]
pub struct ExMemfd(memfd::Memfd);

/// What backs an allocated region.
#[derive(Debug)]
pub enum RegionBacking {
    /// An anonymous sealed memory handle, owned by the region: dropping
    /// the region releases the memory.
    SealedShm(memfd::Memfd),
    /// A GPU buffer export handle, named by its descriptor number.  The
    /// descriptor's lifetime is managed by whoever exported it.
    Exported(i32),
}

/// A sized backing region handed to the buffer pool.
#[derive(Debug)]
pub struct Region {
    pub backing: RegionBacking,
    /// Usable bytes in the region.
    pub size: u64,
}

/// Relies on `memfd::MemfdOptions::create` (`memfd_create(2)`): on
/// success the returned handle names a fresh zero-length anonymous memory
/// file that accepts seals and is closed when the handle is dropped.
#[verifier::external_body]
fn shm_handle_create() -> (r: Option<memfd::Memfd>) {
    memfd::MemfdOptions::default().allow_sealing(true).close_on_exec(true).create(
        "wlrscreencopy-shm",
    ).ok()
}

/// Relies on `File::set_len` (`ftruncate(2)`), reached through
/// `memfd::Memfd::as_file`: when it returns `Ok` the file's length is
/// exactly `size` bytes.
#[verifier::external_body]
fn shm_handle_set_len(handle: &memfd::Memfd, size: u64) -> (r: bool) {
    handle.as_file().set_len(size).is_ok()
}

/// Relies on `memfd::Memfd::add_seal` (`fcntl` `F_ADD_SEALS`): on success
/// the file can no longer be shrunk by any holder of the descriptor.
#[verifier::external_body]
fn shm_handle_seal_shrink(handle: &memfd::Memfd) -> (r: bool) {
    handle.add_seal(memfd::FileSeal::SealShrink).is_ok()
}

/// Relies on `memfd::Memfd::add_seal` (`fcntl` `F_ADD_SEALS`): on success
/// the seal set itself is sealed, so no further seals can be added.
#[verifier::external_body]
fn shm_handle_seal_seal(handle: &memfd::Memfd) -> (r: bool) {
    handle.add_seal(memfd::FileSeal::SealSeal).is_ok()
}

/// The sealed-shared-memory backend: creates anonymous memory, grows it
/// to the requested size, then locks the size down.
pub struct MemfdMemoryAllocator {}

impl MemfdMemoryAllocator {
    /// Allocate a sealed anonymous region of exactly `size` bytes.
    ///
    /// Creation and sizing failures abort the allocation; a failure to
    /// apply either seal is non-fatal and the created-and-sized region is
    /// still returned.
    pub fn allocate(&self, size: u64) -> (r: Result<Region, AllocError>)
        ensures
            r matches Ok(region) ==> region.size == size && region.backing is SealedShm,
            r matches Err(e) ==> e == AllocError::CreateFailed || e == AllocError::SizeFailed,
    {
        let handle = match shm_handle_create() {
            Some(handle) => handle,
            None => {
                return Err(AllocError::CreateFailed);
            },
        };
        if !shm_handle_set_len(&handle, size) {
            // Dropping the handle releases the created memory.
            return Err(AllocError::SizeFailed);
        }
        // Seal failures are logged-and-ignored territory: the region is
        // correctly sized either way.
        let _ = shm_handle_seal_shrink(&handle);
        let _ = shm_handle_seal_seal(&handle);
        Ok(Region { backing: RegionBacking::SealedShm(handle), size })
    }
}

/// What a GPU-side backend must allocate: a buffer object of the frame's
/// dimensions, in the frame's fourcc, with the linear layout modifier,
/// exporting at least `min_size` bytes.
#[derive(Clone, Copy, Debug, PartialEq, Eq, Structural)]
pub struct GpuAllocationRequest {
    pub width: u32,
    pub height: u32,
    pub fourcc: u32,
    pub modifier: u64,
    pub min_size: u64,
}

/// The GPU-buffer backend.  The render-node device that creates and
/// exports buffer objects lives outside the library: this type states
/// what must be asked of it and validates what comes back.
pub struct GbmMemoryAllocator {}

impl GbmMemoryAllocator {
    /// The allocation the device must perform for `layout`.  Only the
    /// linear memory layout is ever requested.
    pub fn allocation_request(&self, layout: &VideoLayout) -> (r: GpuAllocationRequest)
        ensures
            r.width == layout.width,
            r.height == layout.height,
            r.fourcc == spec_format_to_drm_fourcc(layout.format),
            r.modifier == DRM_MODIFIER_LINEAR,
            r.min_size == layout.size,
    {
        GpuAllocationRequest {
            width: layout.width,
            height: layout.height,
            fourcc: gst_video_format_to_drm_fourcc(layout.format),
            modifier: DRM_MODIFIER_LINEAR,
            min_size: layout.size,
        }
    }

    /// Adopt an exported buffer object (descriptor plus its real byte
    /// size) as the region for `layout`.  An undersized export is a hard
    /// failure, never papered over.
    pub fn allocate(&self, fd: i32, exported_size: u64, layout: &VideoLayout) -> (r: Result<
        Region,
        AllocError,
    >)
        ensures
            r matches Ok(region) ==> region.size == exported_size && region.backing
                == RegionBacking::Exported(fd) && exported_size >= layout.size,
            r is Err <==> exported_size < layout.size,
            r matches Err(e) ==> e == AllocError::Undersized,
    {
        if exported_size < layout.size {
            return Err(AllocError::Undersized);
        }
        Ok(Region { backing: RegionBacking::Exported(fd), size: exported_size })
    }
}

/// The allocator chosen for a pool configuration: a zero-copy backend
/// exactly when the negotiated format is a zero-copy candidate and the
/// session has zero-copy transport, preferring the kernel DMA heap when
/// it is present; sealed shared memory otherwise.
pub open spec fn spec_select_allocator(
    format_is_zero_copy_candidate: bool,
    zero_copy_available: bool,
    dma_heap_available: bool,
) -> AllocatorKind {
    if format_is_zero_copy_candidate && zero_copy_available {
        if dma_heap_available {
            AllocatorKind::KernelDmaHeap
        } else {
            AllocatorKind::GpuBufferDevice
        }
    } else {
        AllocatorKind::SealedSharedMemory
    }
}

/// Pick the backend for one buffer-pool (re)configuration.
///
/// `format_is_zero_copy_candidate` says whether the negotiated format
/// appears in the frame's zero-copy candidate set; `zero_copy_available`
/// whether the session's transport can import GPU buffers at all;
/// `dma_heap_available` whether a kernel DMA heap device exists.
pub fn select_allocator(
    format_is_zero_copy_candidate: bool,
    zero_copy_available: bool,
    dma_heap_available: bool,
) -> (k: AllocatorKind)
    ensures
        k == spec_select_allocator(
            format_is_zero_copy_candidate,
            zero_copy_available,
            dma_heap_available,
        ),
{
    if format_is_zero_copy_candidate && zero_copy_available {
        if dma_heap_available {
            AllocatorKind::KernelDmaHeap
        } else {
            AllocatorKind::GpuBufferDevice
        }
    } else {
        AllocatorKind::SealedSharedMemory
    }
}

/// Law: a zero-copy-eligible format with zero-copy transport available is
/// never backed by shared memory, and without zero-copy transport the
/// selection is always sealed shared memory, whatever the candidate sets
/// say.
pub proof fn lemma_selector_respects_transport(
    format_is_zero_copy_candidate: bool,
    zero_copy_available: bool,
    dma_heap_available: bool,
)
    ensures
        format_is_zero_copy_candidate && zero_copy_available ==> spec_select_allocator(
            format_is_zero_copy_candidate,
            zero_copy_available,
            dma_heap_available,
        ) != AllocatorKind::SealedSharedMemory,
        !zero_copy_available ==> spec_select_allocator(
            format_is_zero_copy_candidate,
            zero_copy_available,
            dma_heap_available,
        ) == AllocatorKind::SealedSharedMemory,
{
}

} // verus!
