//! Bidirectional translation between the internal pixel-format tag and the
//! two external format vocabularies: `wl_shm` pixel codes (shared-memory
//! buffers) and DRM fourcc codes (GPU buffers).
//!
//! Exactly eight 32-bit, 4-channel permutations are supported.  Codes
//! outside the supported set translate to "no result" so that callers can
//! skip unknown advertisement entries instead of failing capture entirely.

use vstd::prelude::*;

verus! {

/// The internal pixel-format tag: the eight supported 32-bit RGB
/// permutations, named after their little-endian byte order.
#[derive(Clone, Copy, Debug, PartialEq, Eq, Structural)]
pub enum VideoFormat {
    Rgba,
    Bgra,
    Argb,
    Xrgb,
    Abgr,
    Xbgr,
    Rgbx,
    Bgrx,
}

// `wl_shm` pixel codes, as the core protocol defines them: the two
// mandatory formats have small dedicated values, the rest equal the
// corresponding fourcc.
pub const WL_SHM_ARGB8888: u32 = 0;
pub const WL_SHM_XRGB8888: u32 = 1;
pub const WL_SHM_XBGR8888: u32 = 0x34324258;
pub const WL_SHM_RGBX8888: u32 = 0x34325852;
pub const WL_SHM_BGRX8888: u32 = 0x34325842;
pub const WL_SHM_ABGR8888: u32 = 0x34324241;
pub const WL_SHM_RGBA8888: u32 = 0x34324152;
pub const WL_SHM_BGRA8888: u32 = 0x34324142;

// DRM fourcc codes of the eight supported formats.
pub const DRM_FOURCC_ABGR8888: u32 = 0x34324241;
pub const DRM_FOURCC_ARGB8888: u32 = 0x34325241;
pub const DRM_FOURCC_BGRA8888: u32 = 0x34324142;
pub const DRM_FOURCC_BGRX8888: u32 = 0x34325842;
pub const DRM_FOURCC_RGBA8888: u32 = 0x34324152;
pub const DRM_FOURCC_RGBX8888: u32 = 0x34325852;
pub const DRM_FOURCC_XBGR8888: u32 = 0x34324258;
pub const DRM_FOURCC_XRGB8888: u32 = 0x34325258;

/// The internal format a `wl_shm` pixel code stands for, if supported.
pub open spec fn spec_format_from_wl_shm(code: u32) -> Option<VideoFormat> {
    if code == WL_SHM_ABGR8888 {
        Some(VideoFormat::Rgba)
    } else if code == WL_SHM_ARGB8888 {
        Some(VideoFormat::Bgra)
    } else if code == WL_SHM_BGRA8888 {
        Some(VideoFormat::Argb)
    } else if code == WL_SHM_BGRX8888 {
        Some(VideoFormat::Xrgb)
    } else if code == WL_SHM_RGBA8888 {
        Some(VideoFormat::Abgr)
    } else if code == WL_SHM_RGBX8888 {
        Some(VideoFormat::Xbgr)
    } else if code == WL_SHM_XBGR8888 {
        Some(VideoFormat::Rgbx)
    } else if code == WL_SHM_XRGB8888 {
        Some(VideoFormat::Bgrx)
    } else {
        None
    }
}

/// The `wl_shm` pixel code an internal format is shared as.
pub open spec fn spec_format_to_wl_shm(format: VideoFormat) -> u32 {
    match format {
        VideoFormat::Abgr => WL_SHM_RGBA8888,
        VideoFormat::Argb => WL_SHM_BGRA8888,
        VideoFormat::Bgra => WL_SHM_ARGB8888,
        VideoFormat::Bgrx => WL_SHM_XRGB8888,
        VideoFormat::Rgba => WL_SHM_ABGR8888,
        VideoFormat::Rgbx => WL_SHM_XBGR8888,
        VideoFormat::Xbgr => WL_SHM_RGBX8888,
        VideoFormat::Xrgb => WL_SHM_BGRX8888,
    }
}

/// The internal format a DRM fourcc code stands for, if supported.
pub open spec fn spec_format_from_drm_fourcc(code: u32) -> Option<VideoFormat> {
    if code == DRM_FOURCC_ABGR8888 {
        Some(VideoFormat::Abgr)
    } else if code == DRM_FOURCC_ARGB8888 {
        Some(VideoFormat::Argb)
    } else if code == DRM_FOURCC_BGRA8888 {
        Some(VideoFormat::Bgra)
    } else if code == DRM_FOURCC_BGRX8888 {
        Some(VideoFormat::Bgrx)
    } else if code == DRM_FOURCC_RGBA8888 {
        Some(VideoFormat::Rgba)
    } else if code == DRM_FOURCC_RGBX8888 {
        Some(VideoFormat::Rgbx)
    } else if code == DRM_FOURCC_XBGR8888 {
        Some(VideoFormat::Xbgr)
    } else if code == DRM_FOURCC_XRGB8888 {
        Some(VideoFormat::Xrgb)
    } else {
        None
    }
}

/// The DRM fourcc code an internal format is exported as.
pub open spec fn spec_format_to_drm_fourcc(format: VideoFormat) -> u32 {
    match format {
        VideoFormat::Abgr => DRM_FOURCC_ABGR8888,
        VideoFormat::Argb => DRM_FOURCC_ARGB8888,
        VideoFormat::Bgra => DRM_FOURCC_BGRA8888,
        VideoFormat::Bgrx => DRM_FOURCC_BGRX8888,
        VideoFormat::Rgba => DRM_FOURCC_RGBA8888,
        VideoFormat::Rgbx => DRM_FOURCC_RGBX8888,
        VideoFormat::Xbgr => DRM_FOURCC_XBGR8888,
        VideoFormat::Xrgb => DRM_FOURCC_XRGB8888,
    }
}

/// Translate a `wl_shm` pixel code into the internal format tag.
/// Unsupported codes yield `None`, not an error.
pub fn gst_video_format_from_wl_shm(code: u32) -> (r: Option<VideoFormat>)
    ensures
        r == spec_format_from_wl_shm(code),
{
    if code == WL_SHM_ABGR8888 {
        Some(VideoFormat::Rgba)
    } else if code == WL_SHM_ARGB8888 {
        Some(VideoFormat::Bgra)
    } else if code == WL_SHM_BGRA8888 {
        Some(VideoFormat::Argb)
    } else if code == WL_SHM_BGRX8888 {
        Some(VideoFormat::Xrgb)
    } else if code == WL_SHM_RGBA8888 {
        Some(VideoFormat::Abgr)
    } else if code == WL_SHM_RGBX8888 {
        Some(VideoFormat::Xbgr)
    } else if code == WL_SHM_XBGR8888 {
        Some(VideoFormat::Rgbx)
    } else if code == WL_SHM_XRGB8888 {
        Some(VideoFormat::Bgrx)
    } else {
        None
    }
}

/// Translate the internal format tag into its `wl_shm` pixel code.
pub fn gst_video_format_to_wl_shm(format: VideoFormat) -> (r: u32)
    ensures
        r == spec_format_to_wl_shm(format),
{
    match format {
        VideoFormat::Abgr => WL_SHM_RGBA8888,
        VideoFormat::Argb => WL_SHM_BGRA8888,
        VideoFormat::Bgra => WL_SHM_ARGB8888,
        VideoFormat::Bgrx => WL_SHM_XRGB8888,
        VideoFormat::Rgba => WL_SHM_ABGR8888,
        VideoFormat::Rgbx => WL_SHM_XBGR8888,
        VideoFormat::Xbgr => WL_SHM_RGBX8888,
        VideoFormat::Xrgb => WL_SHM_BGRX8888,
    }
}

/// Translate a DRM fourcc code into the internal format tag.
/// Unsupported codes yield `None`, not an error.
pub fn gst_video_format_from_drm_fourcc(code: u32) -> (r: Option<VideoFormat>)
    ensures
        r == spec_format_from_drm_fourcc(code),
{
    if code == DRM_FOURCC_ABGR8888 {
        Some(VideoFormat::Abgr)
    } else if code == DRM_FOURCC_ARGB8888 {
        Some(VideoFormat::Argb)
    } else if code == DRM_FOURCC_BGRA8888 {
        Some(VideoFormat::Bgra)
    } else if code == DRM_FOURCC_BGRX8888 {
        Some(VideoFormat::Bgrx)
    } else if code == DRM_FOURCC_RGBA8888 {
        Some(VideoFormat::Rgba)
    } else if code == DRM_FOURCC_RGBX8888 {
        Some(VideoFormat::Rgbx)
    } else if code == DRM_FOURCC_XBGR8888 {
        Some(VideoFormat::Xbgr)
    } else if code == DRM_FOURCC_XRGB8888 {
        Some(VideoFormat::Xrgb)
    } else {
        None
    }
}

/// Translate the internal format tag into its DRM fourcc code.
pub fn gst_video_format_to_drm_fourcc(format: VideoFormat) -> (r: u32)
    ensures
        r == spec_format_to_drm_fourcc(format),
{
    match format {
        VideoFormat::Abgr => DRM_FOURCC_ABGR8888,
        VideoFormat::Argb => DRM_FOURCC_ARGB8888,
        VideoFormat::Bgra => DRM_FOURCC_BGRA8888,
        VideoFormat::Bgrx => DRM_FOURCC_BGRX8888,
        VideoFormat::Rgba => DRM_FOURCC_RGBA8888,
        VideoFormat::Rgbx => DRM_FOURCC_RGBX8888,
        VideoFormat::Xbgr => DRM_FOURCC_XBGR8888,
        VideoFormat::Xrgb => DRM_FOURCC_XRGB8888,
    }
}

/// Whether a `wl_shm` pixel code is one the wire protocol defines at all
/// (a larger set than the eight this library supports).
pub uninterp spec fn wl_shm_code_recognized(code: u32) -> bool;

/// Relies on `wayland_client::protocol::wl_shm::Format::try_from::<u32>`:
/// it returns `Ok` exactly for the pixel codes listed in the protocol's
/// `wl_shm.format` enum, which include the eight codes this library
/// supports.
#[verifier::external_body]
pub(crate) fn wl_shm_code_is_known(code: u32) -> (r: bool)
    ensures
        r == wl_shm_code_recognized(code),
        spec_format_from_wl_shm(code) is Some ==> r,
{
    wayland_client::protocol::wl_shm::Format::try_from(code).is_ok()
}

/// Whether a u32 is a DRM fourcc known to the kernel's format registry
/// (a larger set than the eight this library supports).
pub uninterp spec fn drm_fourcc_recognized(code: u32) -> bool;

/// Relies on `drm_fourcc::DrmFourcc::try_from::<u32>`: it returns `Ok`
/// exactly for the fourcc values in the kernel's pixel-format list, which
/// include the eight codes this library supports.
#[verifier::external_body]
pub(crate) fn drm_fourcc_is_known(code: u32) -> (r: bool)
    ensures
        r == drm_fourcc_recognized(code),
        spec_format_from_drm_fourcc(code) is Some ==> r,
{
    drm_fourcc::DrmFourcc::try_from(code).is_ok()
}

/// Law: the `wl_shm` translation round-trips.  Every supported format
/// comes back from its own code, and a code that translates at all
/// translates back to itself; all other codes yield no result.
pub proof fn lemma_wl_shm_round_trip()
    ensures
        forall|f: VideoFormat| spec_format_from_wl_shm(spec_format_to_wl_shm(f)) == Some(f),
        forall|c: u32|
            #[trigger] spec_format_from_wl_shm(c) matches Some(f) ==> spec_format_to_wl_shm(f)
                == c,
{
}

/// Law: the DRM fourcc translation round-trips.  Every supported format
/// comes back from its own code, and a code that translates at all
/// translates back to itself; all other codes yield no result.
pub proof fn lemma_drm_fourcc_round_trip()
    ensures
        forall|f: VideoFormat| spec_format_from_drm_fourcc(spec_format_to_drm_fourcc(f)) == Some(f),
        forall|c: u32|
            #[trigger] spec_format_from_drm_fourcc(c) matches Some(f) ==> spec_format_to_drm_fourcc(
                f,
            ) == c,
{
}

} // verus!
