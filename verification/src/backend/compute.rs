//! Request checks, kernel choice and dispatch sizing of the compute pipelines.
use vstd::prelude::*;

use crate::backend::strategy::{is_high_order, is_packed_rgb24, is_packed_rgba32};
use crate::desc::{ImageDesc, ImageDescMut};
use crate::types::{FilterMode, PixelFormat, Result, ScalixError};

verus! {

/// `a * b`, or `usize::MAX` when the product does not fit.
pub open spec fn sat_mul(a: int, b: int) -> int {
    if a * b <= usize::MAX { a * b } else { usize::MAX as int }
}

/// `a * b`, saturating at `usize::MAX`.
pub fn saturating_mul_usize(a: usize, b: usize) -> (r: usize)
    ensures
        r == sat_mul(a as int, b as int),
{
    match a.checked_mul(b) {
        Some(p) => p,
        None => usize::MAX,
    }
}

/// `a * b`, saturating at `u32::MAX`.
pub fn saturating_mul_u32(a: u32, b: u32) -> (r: u32)
    ensures
        r == sat_mul_u32(a as int, b as int),
{
    match a.checked_mul(b) {
        Some(p) => p,
        None => u32::MAX,
    }
}

/// Message of a format-mismatch failure: `prefix`, then the two format names around " -> ".
pub open spec fn format_mismatch_message(prefix: Seq<char>, src: PixelFormat, dst: PixelFormat) -> Seq<char> {
    prefix + src.format_name() + " -> "@ + dst.format_name()
}

/// Bytes per pixel the Vulkan compute kernels read and write: 3 for packed 24-bit layouts, 4 for
/// packed 32-bit RGBA layouts.
pub open spec fn vulkan_compute_bpp(format: PixelFormat) -> int {
    if is_packed_rgb24(format) { 3 } else { 4 }
}

/// Outcome of the Vulkan compute pipeline's stride checks (run once sizes and formats passed).
pub open spec fn vulkan_compute_stride_check(src: &ImageDesc, dst: &ImageDescMut) -> Result<()> {
    let bpp = vulkan_compute_bpp(src.format);
    if src.stride < sat_mul(src.width as int, bpp) {
        Err(
            ScalixError::InvalidStride {
                stride: src.stride,
                min_stride: sat_mul(src.width as int, bpp) as usize,
            },
        )
    } else if dst.stride < sat_mul(dst.width as int, bpp) {
        Err(
            ScalixError::InvalidStride {
                stride: dst.stride,
                min_stride: sat_mul(dst.width as int, bpp) as usize,
            },
        )
    } else {
        Ok(())
    }
}

/// Checks a request for the Vulkan compute pipeline: non-empty images, one packed 24-bit or
/// 32-bit RGBA format on both sides, and strides of at least three (24-bit) or four (32-bit)
/// bytes per pixel.
pub fn check_vulkan_compute_request(src: &ImageDesc, dst: &ImageDescMut) -> (r: Result<()>)
    ensures
        if src.width == 0 || src.height == 0 || dst.width == 0 || dst.height == 0 {
            r == Err::<(), ScalixError>(
                ScalixError::InvalidDimensions {
                    width: if src.width == 0 { src.width } else { dst.width },
                    height: if src.height == 0 { src.height } else { dst.height },
                },
            )
        } else if src.format != dst.format {
            r matches Err(ScalixError::ExecutionFailed(m)) && m@ == format_mismatch_message(
                "Compute direct resizer expects identical src and dst formats: "@,
                src.format,
                dst.format,
            )
        } else if !is_packed_rgb24(src.format) && !is_packed_rgba32(src.format) {
            r == Err::<(), ScalixError>(ScalixError::UnsupportedFormat(src.format))
        } else {
            r == vulkan_compute_stride_check(src, dst)
        },
{
    if src.width == 0 || src.height == 0 || dst.width == 0 || dst.height == 0 {
        return Err(
            ScalixError::InvalidDimensions {
                width: if src.width == 0 { src.width } else { dst.width },
                height: if src.height == 0 { src.height } else { dst.height },
            },
        );
    }
    if src.format != dst.format {
        let mut msg = "Compute direct resizer expects identical src and dst formats: ".to_owned();
        msg.append(src.format.debug_name());
        msg.append(" -> ");
        msg.append(dst.format.debug_name());
        return Err(ScalixError::ExecutionFailed(msg));
    }
    let bpp: usize = match src.format {
        PixelFormat::Rgb888 | PixelFormat::Bgr888 => 3,
        PixelFormat::Rgba8888 | PixelFormat::Bgra8888 => 4,
        _ => return Err(ScalixError::UnsupportedFormat(src.format)),
    };
    let src_min_stride = saturating_mul_usize(src.width as usize, bpp);
    let dst_min_stride = saturating_mul_usize(dst.width as usize, bpp);
    if src.stride < src_min_stride || dst.stride < dst_min_stride {
        return Err(
            ScalixError::InvalidStride {
                stride: if src.stride < src_min_stride { src.stride } else { dst.stride },
                min_stride: if src.stride < src_min_stride { src_min_stride } else { dst_min_stride },
            },
        );
    }
    Ok(())
}

/// Bytes per pixel the OpenCL kernels read and write, `None` for planar layouts.
pub open spec fn opencl_channels_spec(format: PixelFormat) -> Option<u32> {
    match format {
        PixelFormat::Rgba8888 | PixelFormat::Bgra8888 => Some(4u32),
        PixelFormat::Rgb888 | PixelFormat::Bgr888 => Some(3u32),
        PixelFormat::Rg88 => Some(2u32),
        PixelFormat::R8 => Some(1u32),
        PixelFormat::Rgba16f => Some(8u32),
        PixelFormat::Rgba32f => Some(16u32),
        PixelFormat::Nv12 | PixelFormat::Yuv420p => None,
    }
}

/// Outcome of the OpenCL compute pipeline's checks once the formats are known to match: the
/// channel count on success.
pub open spec fn opencl_compute_check(src: &ImageDesc, dst: &ImageDescMut) -> Result<u32> {
    match opencl_channels_spec(src.format) {
        None => Err(ScalixError::UnsupportedFormat(src.format)),
        Some(c) => if src.stride < sat_mul(src.width as int, c as int) {
            Err(
                ScalixError::InvalidStride {
                    stride: src.stride,
                    min_stride: sat_mul(src.width as int, c as int) as usize,
                },
            )
        } else if dst.stride < sat_mul(dst.width as int, c as int) {
            Err(
                ScalixError::InvalidStride {
                    stride: dst.stride,
                    min_stride: sat_mul(dst.width as int, c as int) as usize,
                },
            )
        } else {
            Ok(c)
        },
    }
}

/// Checks a request for the OpenCL compute pipeline and returns the bytes per pixel its
/// kernels handle.
pub fn check_opencl_request(src: &ImageDesc, dst: &ImageDescMut) -> (r: Result<u32>)
    ensures
        if src.format != dst.format {
            r matches Err(ScalixError::ExecutionFailed(m)) && m@ == format_mismatch_message(
                "OpenCL direct compute resizer expects matching src and dst formats: "@,
                src.format,
                dst.format,
            )
        } else {
            r == opencl_compute_check(src, dst)
        },
{
    if src.format != dst.format {
        let mut msg = "OpenCL direct compute resizer expects matching src and dst formats: ".to_owned();
        msg.append(src.format.debug_name());
        msg.append(" -> ");
        msg.append(dst.format.debug_name());
        return Err(ScalixError::ExecutionFailed(msg));
    }
    let channels: u32 = match src.format {
        PixelFormat::Rgba8888 | PixelFormat::Bgra8888 => 4,
        PixelFormat::Rgb888 | PixelFormat::Bgr888 => 3,
        PixelFormat::Rg88 => 2,
        PixelFormat::R8 => 1,
        PixelFormat::Rgba16f => 8,
        PixelFormat::Rgba32f => 16,
        PixelFormat::Nv12 | PixelFormat::Yuv420p => {
            return Err(ScalixError::UnsupportedFormat(src.format));
        },
    };
    let src_min_stride = saturating_mul_usize(src.width as usize, channels as usize);
    let dst_min_stride = saturating_mul_usize(dst.width as usize, channels as usize);
    if src.stride < src_min_stride || dst.stride < dst_min_stride {
        return Err(
            ScalixError::InvalidStride {
                stride: if src.stride < src_min_stride { src.stride } else { dst.stride },
                min_stride: if src.stride < src_min_stride { src_min_stride } else { dst_min_stride },
            },
        );
    }
    Ok(channels)
}

/// Kernel used for `filter` given the filters that have kernels: its own, or the bilinear one
/// standing in for a high-order filter without a kernel.
pub open spec fn compute_kernel_choice(filter: FilterMode, registered: Seq<FilterMode>) -> Option<FilterMode> {
    if registered.contains(filter) {
        Some(filter)
    } else if is_high_order(filter) && registered.contains(FilterMode::Bilinear) {
        Some(FilterMode::Bilinear)
    } else {
        None
    }
}

fn contains_filter(list: &[FilterMode], filter: FilterMode) -> (r: bool)
    ensures
        r == list@.contains(filter),
{
    let mut i: usize = 0;
    while i < list.len()
        invariant
            0 <= i <= list@.len(),
            forall|j: int| 0 <= j < i ==> list@[j] != filter,
        decreases list@.len() - i,
    {
        if list[i] == filter {
            return true;
        }
        i = i + 1;
    }
    false
}

/// Picks the registered compute kernel that serves `filter`.
pub fn select_compute_kernel(filter: FilterMode, registered: &[FilterMode]) -> (r: Option<FilterMode>)
    ensures
        r == compute_kernel_choice(filter, registered@),
{
    if contains_filter(registered, filter) {
        Some(filter)
    } else if matches!(filter, FilterMode::Bicubic | FilterMode::Lanczos3 | FilterMode::Area)
        && contains_filter(registered, FilterMode::Bilinear) {
        Some(FilterMode::Bilinear)
    } else {
        None
    }
}

/// Law: a filter whose own kernel is registered is always served by it; the bilinear kernel
/// stands in only for a bicubic, Lanczos-3 or area filter whose own kernel is missing; any kernel
/// chosen is a registered one; and no kernel is chosen only when neither is available.
pub proof fn lemma_kernel_choice_prefers_own_kernel(filter: FilterMode, registered: Seq<FilterMode>)
    ensures
        registered.contains(filter) ==> compute_kernel_choice(filter, registered) == Some(filter),
        !registered.contains(filter) && (filter is Bicubic || filter is Lanczos3 || filter is Area)
            && registered.contains(FilterMode::Bilinear) ==> compute_kernel_choice(filter, registered)
            == Some(FilterMode::Bilinear),
        compute_kernel_choice(filter, registered) is Some ==> registered.contains(
            compute_kernel_choice(filter, registered)->0,
        ),
        compute_kernel_choice(filter, registered) is None <==> (!registered.contains(filter) && !((
        filter is Bicubic || filter is Lanczos3 || filter is Area) && registered.contains(
            FilterMode::Bilinear,
        ))),
{
}

/// Law: the compute pipelines size rows by the format's own pixel size. The Vulkan compute
/// kernels handle the packed 24-bit and 32-bit RGBA formats at their pixel size; the OpenCL
/// kernels handle every packed format at its pixel size and no planar one.
pub proof fn lemma_compute_pixel_sizes(format: PixelFormat)
    ensures
        (format is Rgb888 || format is Bgr888 || format is Rgba8888 || format is Bgra8888)
            ==> vulkan_compute_bpp(format) == format.unit_bytes(),
        opencl_channels_spec(format) is None <==> (format is Nv12 || format is Yuv420p),
        opencl_channels_spec(format) is Some ==> (opencl_channels_spec(format)->0) as int
            == format.unit_bytes(),
{
}

/// `a * b` in `u32`, saturating.
pub open spec fn sat_mul_u32(a: int, b: int) -> int {
    if a * b <= u32::MAX { a * b } else { u32::MAX as int }
}

/// Number of one-dimensional workgroups that cover every destination pixel, at least one.
pub open spec fn workgroup_count(dst_w: u32, dst_h: u32, workgroup_size_x: u32, pixels_per_thread: u32) -> int {
    let total = sat_mul_u32(dst_w as int, dst_h as int);
    let per_group = sat_mul_u32(workgroup_size_x as int, pixels_per_thread as int);
    let groups = (total + per_group - 1) / per_group;
    if groups >= 1 { groups } else { 1 }
}

/// Workgroups to dispatch for a `dst_w` x `dst_h` destination, each covering
/// `workgroup_size_x * pixels_per_thread` pixels; fails for an empty workgroup layout.
pub fn compute_workgroups(dst_w: u32, dst_h: u32, workgroup_size_x: u32, pixels_per_thread: u32) -> (r:
    Result<u32>)
    ensures
        match r {
            Ok(g) => sat_mul_u32(workgroup_size_x as int, pixels_per_thread as int) > 0 && g
                == workgroup_count(dst_w, dst_h, workgroup_size_x, pixels_per_thread),
            Err(e) => sat_mul_u32(workgroup_size_x as int, pixels_per_thread as int) == 0 && (
            e matches ScalixError::ExecutionFailed(m) && m@
                == "Compute kernel workgroup layout must be non-zero"@),
        },
{
    let total = saturating_mul_u32(dst_w, dst_h);
    let per_group = saturating_mul_u32(workgroup_size_x, pixels_per_thread);
    if per_group == 0 {
        return Err(
            ScalixError::ExecutionFailed(
                "Compute kernel workgroup layout must be non-zero".to_owned(),
            ),
        );
    }
    let ghost t = total as int;
    let ghost p = per_group as int;
    let wide: u64 = (total as u64 + per_group as u64 - 1) / (per_group as u64);
    proof {
        vstd::arithmetic::div_mod::lemma_fundamental_div_mod(t + p - 1, p);
        vstd::arithmetic::div_mod::lemma_mod_bound(t + p - 1, p);
        let q = (t + p - 1) / p;
        if t >= 1 {
            assert(q <= t) by (nonlinear_arith)
                requires t + p - 1 == p * q + (t + p - 1) % p, (t + p - 1) % p >= 0, t >= 1, p >= 1;
        } else {
            assert(q == 0) by (nonlinear_arith)
                requires t + p - 1 == p * q + (t + p - 1) % p, 0 <= (t + p - 1) % p < p, t == 0, p >= 1;
        }
    }
    let groups = wide as u32;
    if groups >= 1 { Ok(groups) } else { Ok(1) }
}

/// Law: the dispatched workgroups cover every destination pixel.
pub proof fn lemma_workgroups_cover_destination(dst_w: u32, dst_h: u32, workgroup_size_x: u32, pixels_per_thread: u32)
    requires
        sat_mul_u32(workgroup_size_x as int, pixels_per_thread as int) > 0,
    ensures
        workgroup_count(dst_w, dst_h, workgroup_size_x, pixels_per_thread)
            * sat_mul_u32(workgroup_size_x as int, pixels_per_thread as int)
            >= sat_mul_u32(dst_w as int, dst_h as int),
{
    let t = sat_mul_u32(dst_w as int, dst_h as int);
    let p = sat_mul_u32(workgroup_size_x as int, pixels_per_thread as int);
    vstd::arithmetic::div_mod::lemma_fundamental_div_mod(t + p - 1, p);
    vstd::arithmetic::div_mod::lemma_mod_bound(t + p - 1, p);
    let g = (t + p - 1) / p;
    assert(g * p >= t) by (nonlinear_arith)
        requires t + p - 1 == p * g + (t + p - 1) % p, (t + p - 1) % p < p;
    assert(workgroup_count(dst_w, dst_h, workgroup_size_x, pixels_per_thread) >= g);
    assert(workgroup_count(dst_w, dst_h, workgroup_size_x, pixels_per_thread) * p >= g * p) by (nonlinear_arith)
        requires workgroup_count(dst_w, dst_h, workgroup_size_x, pixels_per_thread) >= g, p > 0;
}

/// Law: the dispatch is the smallest that covers the destination: one workgroup fewer would
/// leave pixels uncovered, unless a single workgroup is dispatched.
pub proof fn lemma_workgroups_fewest(dst_w: u32, dst_h: u32, workgroup_size_x: u32, pixels_per_thread: u32)
    requires
        sat_mul_u32(workgroup_size_x as int, pixels_per_thread as int) > 0,
    ensures
        workgroup_count(dst_w, dst_h, workgroup_size_x, pixels_per_thread) >= 1,
        workgroup_count(dst_w, dst_h, workgroup_size_x, pixels_per_thread) == 1 || (workgroup_count(
            dst_w,
            dst_h,
            workgroup_size_x,
            pixels_per_thread,
        ) - 1) * sat_mul_u32(workgroup_size_x as int, pixels_per_thread as int) < sat_mul_u32(
            dst_w as int,
            dst_h as int,
        ),
{
    let t = sat_mul_u32(dst_w as int, dst_h as int);
    let p = sat_mul_u32(workgroup_size_x as int, pixels_per_thread as int);
    vstd::arithmetic::div_mod::lemma_fundamental_div_mod(t + p - 1, p);
    vstd::arithmetic::div_mod::lemma_mod_bound(t + p - 1, p);
    let g = (t + p - 1) / p;
    assert((g - 1) * p < t) by (nonlinear_arith)
        requires t + p - 1 == p * g + (t + p - 1) % p, (t + p - 1) % p >= 0;
}

/// Workgroups of 16 x 16 invocations that cover a `dst_w` x `dst_h` image (the OpenGL compute
/// resizer and the Vulkan 24-bit unpack pass): each extent divided by 16, rounded up.
pub fn grid_groups_16(dst_w: u32, dst_h: u32) -> (r: (u32, u32))
    ensures
        r.0 * 16 >= dst_w && (r.0 as int - 1) * 16 < dst_w,
        r.1 * 16 >= dst_h && (r.1 as int - 1) * 16 < dst_h,
{
    let gx = dst_w / 16 + if dst_w % 16 == 0 { 0 } else { 1 };
    let gy = dst_h / 16 + if dst_h % 16 == 0 { 0 } else { 1 };
    (gx, gy)
}

/// `a / b` rounded up, for `b > 0`.
pub open spec fn ceil_div(a: int, b: int) -> int {
    (a + b - 1) / b
}

/// Workgroups of the Vulkan 24-bit repack pass over a `width` x `height` image: every
/// invocation packs a chunk of four pixels and every workgroup runs 64 invocations.
pub fn repack_groups(width: u32, height: u32) -> (r: u32)
    requires
        width * height <= u32::MAX,
    ensures
        r == ceil_div(ceil_div(width * height, 4), 64),
        r * 256 >= width * height,
        r == 0 || (r - 1) * 256 < width * height,
{
    let total = width * height;
    let chunks = total / 4 + if total % 4 == 0 { 0 } else { 1 };
    let groups = chunks / 64 + if chunks % 64 == 0 { 0 } else { 1 };
    groups
}

} // verus!
