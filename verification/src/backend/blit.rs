//! Planning of a hardware blit: image format, 24-bit expansion, and staging buffer sizes.
use vstd::prelude::*;

use crate::backend::compute::format_mismatch_message;
use crate::backend::formats::{to_vk_format_info, vk_format_info_spec};
use crate::backend::staging::BUFFER_TAIL_PADDING_BYTES;
use crate::types::{PixelFormat, Result, ScalixError};

verus! {

/// How one blit moves its data.
#[derive(Debug, Clone, Copy, PartialEq, Eq, Structural)]
pub struct BlitPlan {
    /// `VkFormat` code of both GPU images.
    pub vk_format: i32,
    /// The images are packed 24-bit and travel as 32-bit pixels on the GPU.
    pub expands_rgb: bool,
    /// The 24/32-bit conversion runs in GPU compute passes rather than on the host.
    pub gpu_convert: bool,
    /// Bytes of the source staging buffer.
    pub src_staging_bytes: u64,
    /// Bytes of the destination staging buffer.
    pub dst_staging_bytes: u64,
}

/// Staging bytes for an image of `w` x `h` pixels held in `len` bytes: with 24-bit expansion,
/// the packed bytes plus 16 bytes of padding when the GPU converts, or four bytes per pixel when
/// the host does; without, the bytes themselves.
pub open spec fn blit_staging_bytes(expands: bool, gpu: bool, len: int, w: int, h: int) -> int {
    if expands {
        if gpu {
            len + 16
        } else {
            w * h * 4
        }
    } else {
        len
    }
}

fn staging_bytes(expands: bool, gpu: bool, len: usize, w: u32, h: u32) -> (r: u64)
    requires
        len + 16 <= usize::MAX,
        expands && !gpu ==> w * h * 4 <= usize::MAX,
    ensures
        r == blit_staging_bytes(expands, gpu, len as int, w as int, h as int),
{
    if expands {
        if gpu {
            (len + 16) as u64
        } else {
            assert((w as u64) * (h as u64) <= 0xffff_ffff * 0xffff_ffff) by (nonlinear_arith)
                requires w <= 0xffff_ffff, h <= 0xffff_ffff;
            (w as u64) * (h as u64) * 4
        }
    } else {
        len as u64
    }
}

/// Plans a blit from a `src_w` x `src_h` image of `src_len` bytes in `src_format` to a
/// `dst_w` x `dst_h` image of `dst_len` bytes in `dst_format`, with GPU conversion passes
/// available when `gpu_rgb_available`.
///
/// Both formats need a Vulkan image format, and the same one: a blit does not convert.
pub fn plan_blit(
    src_format: PixelFormat,
    dst_format: PixelFormat,
    src_w: u32,
    src_h: u32,
    src_len: usize,
    dst_w: u32,
    dst_h: u32,
    dst_len: usize,
    gpu_rgb_available: bool,
) -> (r: Result<BlitPlan>)
    requires
        src_len + 16 <= usize::MAX,
        dst_len + 16 <= usize::MAX,
        (src_format is Rgb888 || src_format is Bgr888) && !gpu_rgb_available ==> src_w * src_h * 4
            <= usize::MAX,
        (dst_format is Rgb888 || dst_format is Bgr888) && !gpu_rgb_available ==> dst_w * dst_h * 4
            <= usize::MAX,
    ensures
        match (vk_format_info_spec(src_format), vk_format_info_spec(dst_format)) {
            (None, _) => r == Err::<BlitPlan, ScalixError>(ScalixError::UnsupportedFormat(src_format)),
            (Some(_), None) => r == Err::<BlitPlan, ScalixError>(
                ScalixError::UnsupportedFormat(dst_format),
            ),
            (Some(s), Some(d)) => if s != d {
                r matches Err(ScalixError::ExecutionFailed(m)) && m@ == format_mismatch_message(
                    "Blit format conversion not supported directly: "@,
                    src_format,
                    dst_format,
                )
            } else {
                r == Ok::<BlitPlan, ScalixError>(
                    BlitPlan {
                        vk_format: s.0,
                        expands_rgb: s.1,
                        gpu_convert: s.1 && gpu_rgb_available,
                        src_staging_bytes: blit_staging_bytes(
                            s.1,
                            gpu_rgb_available,
                            src_len as int,
                            src_w as int,
                            src_h as int,
                        ) as u64,
                        dst_staging_bytes: blit_staging_bytes(
                            s.1,
                            gpu_rgb_available,
                            dst_len as int,
                            dst_w as int,
                            dst_h as int,
                        ) as u64,
                    },
                )
            },
        },
{
    let (vk_format, src_is_rgb) = match to_vk_format_info(src_format) {
        Ok(t) => t,
        Err(e) => return Err(e),
    };
    let (dst_vk_format, dst_is_rgb) = match to_vk_format_info(dst_format) {
        Ok(t) => t,
        Err(e) => return Err(e),
    };
    if vk_format != dst_vk_format || src_is_rgb != dst_is_rgb {
        let mut msg = "Blit format conversion not supported directly: ".to_owned();
        msg.append(src_format.debug_name());
        msg.append(" -> ");
        msg.append(dst_format.debug_name());
        return Err(ScalixError::ExecutionFailed(msg));
    }
    let gpu = src_is_rgb && gpu_rgb_available;
    let src_staging_bytes = staging_bytes(src_is_rgb, gpu_rgb_available, src_len, src_w, src_h);
    let dst_staging_bytes = staging_bytes(dst_is_rgb, gpu_rgb_available, dst_len, dst_w, dst_h);
    Ok(BlitPlan { vk_format, expands_rgb: src_is_rgb, gpu_convert: gpu, src_staging_bytes, dst_staging_bytes })
}

/// Law: a staging buffer holds what crosses it. Data that is not expanded is staged as it is;
/// packed 24-bit data converted on the GPU is staged packed, with the same tail padding as the
/// other compute staging buffers; data expanded on the host is staged at four bytes per pixel.
pub proof fn lemma_blit_staging_sizes(len: int, w: int, h: int)
    requires
        0 <= len,
        0 <= w,
        0 <= h,
    ensures
        blit_staging_bytes(false, true, len, w, h) == len,
        blit_staging_bytes(false, false, len, w, h) == len,
        blit_staging_bytes(true, true, len, w, h) == len + BUFFER_TAIL_PADDING_BYTES,
        blit_staging_bytes(true, false, len, w, h) == 4 * (w * h),
{
    assert(w * h * 4 == 4 * (w * h)) by (nonlinear_arith);
}

/// GPU ticks of the upload, blit and download stages between four timestamps taken around
/// them (a stage whose end stamp precedes its start counts zero).
pub fn stage_ticks(t0: u64, t1: u64, t2: u64, t3: u64) -> (r: (u64, u64, u64))
    ensures
        r.0 == (if t1 >= t0 { t1 - t0 } else { 0 }),
        r.1 == (if t2 >= t1 { t2 - t1 } else { 0 }),
        r.2 == (if t3 >= t2 { t3 - t2 } else { 0 }),
{
    (t1.saturating_sub(t0), t2.saturating_sub(t1), t3.saturating_sub(t2))
}

} // verus!
