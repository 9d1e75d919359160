//! Concrete video-frame memory layout: per-plane stride and total size
//! derived from pixel format, dimensions and stride alignment.
//!
//! Every supported format is a single-plane, 4-bytes-per-pixel
//! permutation, so the layout is one stride and one size.  Alignment is
//! given as a mask (for instance 31 to align strides to 32 bytes): the
//! stride is the unaligned row size rounded up to the next multiple of
//! `align_mask + 1`.

use vstd::arithmetic::div_mod::{lemma_fundamental_div_mod, lemma_mod_division_less_than_divisor};
use vstd::arithmetic::mul::{lemma_mul_nonnegative, lemma_mul_upper_bound};
use vstd::prelude::*;

use crate::format::VideoFormat;

verus! {

/// The memory layout of one video frame: a pure function of
/// (format, width, height, alignment).
#[derive(Clone, Copy, Debug, PartialEq, Eq, Structural)]
pub struct VideoLayout {
    pub format: VideoFormat,
    /// Frame width in pixels.
    pub width: u32,
    /// Frame height in pixels.
    pub height: u32,
    /// Bytes per row, including alignment padding.
    pub stride: u32,
    /// Total bytes of backing memory the frame needs.
    pub size: u64,
}

/// Row size in bytes: 4 bytes per pixel, rounded up to the next multiple
/// of `align_mask + 1`.
pub open spec fn spec_aligned_stride(width: u32, align_mask: u32) -> int {
    let unaligned = 4 * (width as int);
    let step = align_mask as int + 1;
    ((unaligned + align_mask as int) / step) * step
}

/// The layout for the given parameters, or `None` when the dimensions are
/// degenerate or the aligned stride cannot be represented.
pub open spec fn spec_video_layout(
    format: VideoFormat,
    width: u32,
    height: u32,
    align_mask: u32,
) -> Option<VideoLayout> {
    if width == 0 || height == 0 {
        None
    } else if spec_aligned_stride(width, align_mask) > u32::MAX {
        None
    } else {
        Some(
            VideoLayout {
                format,
                width,
                height,
                stride: spec_aligned_stride(width, align_mask) as u32,
                size: (spec_aligned_stride(width, align_mask) * height as int) as u64,
            },
        )
    }
}

/// The aligned stride rounds up: it is at least the unaligned row size,
/// overshoots it by at most the alignment mask, and is never negative.
pub proof fn lemma_aligned_stride_bounds(width: u32, align_mask: u32)
    ensures
        spec_aligned_stride(width, align_mask) >= 4 * width as int,
        spec_aligned_stride(width, align_mask) <= 4 * width as int + align_mask as int,
{
    let unaligned = 4 * (width as int);
    let step = align_mask as int + 1;
    let x = unaligned + align_mask as int;
    let q = x / step;
    lemma_fundamental_div_mod(x, step);
    lemma_mod_division_less_than_divisor(x, step);
    assert(q * step == step * q) by (nonlinear_arith);
    assert(spec_aligned_stride(width, align_mask) == x - x % step);
}

/// A layout computed by `spec_video_layout` always covers the unaligned
/// pixel data: the stride is at least 4 bytes per pixel of width, and the
/// size is stride times height.
pub proof fn lemma_video_layout_covers_pixels(
    format: VideoFormat,
    width: u32,
    height: u32,
    align_mask: u32,
)
    ensures
        spec_video_layout(format, width, height, align_mask) matches Some(l) ==> {
            &&& l.format == format
            &&& l.width == width
            &&& l.height == height
            &&& l.stride >= 4 * width as int
            &&& l.size == l.stride * height as int
        },
{
    lemma_aligned_stride_bounds(width, align_mask);
    let stride = spec_aligned_stride(width, align_mask);
    if spec_video_layout(format, width, height, align_mask) is Some {
        lemma_mul_nonnegative(stride, height as int);
        lemma_mul_upper_bound(stride, u32::MAX as int, height as int, u32::MAX as int);
    }
}

/// Compute the frame layout.  Returns `None` for zero-sized dimensions or
/// when the aligned stride would not fit a 32-bit count of bytes.
pub fn video_layout(format: VideoFormat, width: u32, height: u32, align_mask: u32) -> (r: Option<
    VideoLayout,
>)
    ensures
        r == spec_video_layout(format, width, height, align_mask),
{
    if width == 0 || height == 0 {
        return None;
    }
    let unaligned: u64 = 4 * (width as u64);
    let step: u64 = (align_mask as u64) + 1;
    let padded: u64 = unaligned + (align_mask as u64);
    proof {
        lemma_aligned_stride_bounds(width, align_mask);
    }
    let stride64: u64 = (padded / step) * step;
    assert(stride64 == spec_aligned_stride(width, align_mask));
    if stride64 > 0xFFFF_FFFF {
        return None;
    }
    let stride: u32 = stride64 as u32;
    proof {
        lemma_mul_upper_bound(stride as int, u32::MAX as int, height as int, u32::MAX as int);
    }
    let size: u64 = (stride as u64) * (height as u64);
    Some(VideoLayout { format, width, height, stride, size })
}

/// Law: the layout is a pure function.  Two computations over identical
/// (format, width, height, alignment) inputs yield identical stride,
/// offsets and total size.
pub proof fn lemma_video_layout_deterministic(
    r1: Option<VideoLayout>,
    r2: Option<VideoLayout>,
    format: VideoFormat,
    width: u32,
    height: u32,
    align_mask: u32,
)
    requires
        r1 == spec_video_layout(format, width, height, align_mask),
        r2 == spec_video_layout(format, width, height, align_mask),
    ensures
        r1 == r2,
{
}

} // verus!
