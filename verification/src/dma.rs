//! Layout, cache-synchronisation flags and allocator selection for DMA-BUF backed images.
use vstd::prelude::*;

use crate::types::{ImageDimensions, PixelFormat, Result, ScalixError};

verus! {

/// CPU access direction for DMA-BUF cache synchronisation.
#[derive(Debug, Clone, Copy, PartialEq, Eq, Structural)]
pub enum DmaSyncFlags {
    Read,
    Write,
    ReadWrite,
}

pub const DMA_BUF_SYNC_READ: u64 = 1;
pub const DMA_BUF_SYNC_WRITE: u64 = 2;
pub const DMA_BUF_SYNC_RW: u64 = 3;
pub const DMA_BUF_SYNC_START: u64 = 0;
pub const DMA_BUF_SYNC_END: u64 = 4;
/// `DMA_BUF_IOCTL_SYNC` request number.
pub const DMA_BUF_IOCTL_SYNC: u64 = 0x40086200;

/// Flags word of a `DMA_BUF_IOCTL_SYNC` request that starts (`end == false`) or ends CPU
/// access in direction `flags`.
pub fn sync_ioctl_flags(flags: DmaSyncFlags, end: bool) -> (r: u64)
    ensures
        r == (match flags {
            DmaSyncFlags::Read => 1u64,
            DmaSyncFlags::Write => 2u64,
            DmaSyncFlags::ReadWrite => 3u64,
        }) + (if end { 4u64 } else { 0u64 }),
{
    let phase = if end { DMA_BUF_SYNC_END } else { DMA_BUF_SYNC_START };
    let dir = match flags {
        DmaSyncFlags::Read => DMA_BUF_SYNC_READ,
        DmaSyncFlags::Write => DMA_BUF_SYNC_WRITE,
        DmaSyncFlags::ReadWrite => DMA_BUF_SYNC_RW,
    };
    assert(dir <= 3 && (phase == 0 || phase == 4) ==> dir | phase == dir + phase) by (bit_vector);
    dir | phase
}

/// Selection of the memory allocator backing a DMA buffer.
#[derive(Debug, Clone, Copy, PartialEq, Eq, Hash, Structural)]
pub enum DmaAllocatorType {
    Auto,
    DmaHeap,
    DrmDumb,
    AndroidAhb,
    HostAligned,
}

impl Default for DmaAllocatorType {
    fn default() -> (r: Self)
        ensures
            r == DmaAllocatorType::Auto,
    {
        DmaAllocatorType::Auto
    }
}

/// Operating system the DMA subsystem runs on.
#[derive(Debug, Clone, Copy, PartialEq, Eq, Structural)]
pub enum DmaPlatform {
    Linux,
    Android,
    Other,
}

/// Allocator for `/dev/dma_heap/*` device nodes (Linux 5.6+, Android).
#[derive(Debug, Clone, Copy)]
pub struct LinuxDmaHeapAllocator;

/// Allocator for DRM render-node dumb buffers exported as DMA-BUF.
#[derive(Debug, Clone, Copy)]
pub struct LinuxDrmAllocator;

/// Allocator for Android `AHardwareBuffer`s.
#[derive(Debug, Clone, Copy)]
pub struct AndroidAhbAllocator;

impl LinuxDmaHeapAllocator {
    pub fn name(&self) -> (r: &'static str)
        ensures
            r@ == "linux_dma_heap"@,
    {
        "linux_dma_heap"
    }
}

impl LinuxDrmAllocator {
    pub fn name(&self) -> (r: &'static str)
        ensures
            r@ == "linux_drm"@,
    {
        "linux_drm"
    }
}

impl AndroidAhbAllocator {
    pub fn name(&self) -> (r: &'static str)
        ensures
            r@ == "android_ahb"@,
    {
        "android_ahb"
    }

    /// `AHardwareBuffer` allocation is part of every Android system this allocator targets.
    pub fn is_available() -> (r: bool)
        ensures
            r,
    {
        true
    }
}

/// Tight row pitch and buffer size of an image of `dims` in `format`.
pub open spec fn tight_layout_result(dims: ImageDimensions, format: PixelFormat) -> Result<(usize, usize)> {
    match format.min_stride_result(dims.width) {
        Err(e) => Err(e),
        Ok(s) => match format.buffer_size_result(dims, s) {
            Err(e) => Err(e),
            Ok(n) => Ok((s, n)),
        },
    }
}

/// Row pitch and size of a tightly packed image of `dims` in `format`, as DMA-heap and
/// host-aligned allocations lay it out.
pub fn tight_layout(dims: ImageDimensions, format: PixelFormat) -> (r: Result<(usize, usize)>)
    ensures
        r == tight_layout_result(dims, format),
{
    let stride = match format.min_stride(dims.width) {
        Ok(s) => s,
        Err(e) => return Err(e),
    };
    let size = match format.min_buffer_size_dims(dims, stride) {
        Ok(n) => n,
        Err(e) => return Err(e),
    };
    Ok((stride, size))
}

/// Outcome of validating the layout of an imported DMA-BUF of non-empty `dims`: its row pitch
/// and mapped size.
pub open spec fn raw_dma_buf_layout_result(
    dims: ImageDimensions,
    format: PixelFormat,
    stride_bytes: Option<usize>,
) -> Result<(usize, usize)> {
    {
        match format.min_stride_result(dims.width) {
            Err(e) => Err(e),
            Ok(min) => {
                let stride = match stride_bytes {
                    Some(s) => s,
                    None => min,
                };
                if stride < min {
                    Err(ScalixError::InvalidStride { stride, min_stride: min })
                } else {
                    match format.buffer_size_result(dims, stride) {
                        Err(e) => Err(e),
                        Ok(n) => Ok((stride, n)),
                    }
                }
            },
        }
    }
}

/// Validates an externally provided DMA-BUF descriptor and returns the row pitch (the given one,
/// or the tightest) and the number of bytes to map.
pub fn raw_dma_buf_layout(
    fd: i32,
    dims: ImageDimensions,
    format: PixelFormat,
    stride_bytes: Option<usize>,
) -> (r: Result<(usize, usize)>)
    ensures
        if dims.spec_is_empty() {
            r == Err::<(usize, usize), ScalixError>(
                ScalixError::InvalidDimensions { width: dims.width, height: dims.height },
            )
        } else if fd < 0 {
            r matches Err(ScalixError::DmaAllocationFailed(m)) && m@
                == "Invalid negative DMA-BUF file descriptor"@
        } else {
            r == raw_dma_buf_layout_result(dims, format, stride_bytes)
        },
{
    if dims.is_empty() {
        return Err(ScalixError::InvalidDimensions { width: dims.width, height: dims.height });
    }
    if fd < 0 {
        return Err(
            ScalixError::DmaAllocationFailed("Invalid negative DMA-BUF file descriptor".to_owned()),
        );
    }
    let min = match format.min_stride(dims.width) {
        Ok(m) => m,
        Err(e) => return Err(e),
    };
    let stride = match stride_bytes {
        Some(s) => {
            if s < min {
                return Err(ScalixError::InvalidStride { stride: s, min_stride: min });
            }
            s
        },
        None => min,
    };
    let size = match format.min_buffer_size_dims(dims, stride) {
        Ok(n) => n,
        Err(e) => return Err(e),
    };
    Ok((stride, size))
}

/// Bits per pixel and row count of the DRM dumb buffer that holds an image of `height` rows in
/// `format` (planar 4:2:0 layouts are one byte per pixel, with the chroma rows appended).
pub open spec fn drm_dumb_request_spec(height: u32, format: PixelFormat) -> (u32, u32) {
    let bpp: u32 = match format {
        PixelFormat::Rgba8888 | PixelFormat::Bgra8888 => 32,
        PixelFormat::Rgb888 | PixelFormat::Bgr888 => 24,
        PixelFormat::R8 => 8,
        PixelFormat::Rg88 => 16,
        PixelFormat::Rgba16f => 64,
        PixelFormat::Rgba32f => 128,
        PixelFormat::Nv12 | PixelFormat::Yuv420p => 8,
    };
    (bpp, if format.is_planar() { (height * 3 / 2) as u32 } else { height })
}

/// Bits per pixel and row count to request for a DRM dumb buffer holding the image.
pub fn drm_dumb_request(height: u32, format: PixelFormat) -> (r: (u32, u32))
    requires
        format.is_planar() ==> height * 3 <= u32::MAX,
    ensures
        r == drm_dumb_request_spec(height, format),
{
    let bpp: u32 = match format {
        PixelFormat::Rgba8888 | PixelFormat::Bgra8888 => 32,
        PixelFormat::Rgb888 | PixelFormat::Bgr888 => 24,
        PixelFormat::R8 => 8,
        PixelFormat::Rg88 => 16,
        PixelFormat::Rgba16f => 64,
        PixelFormat::Rgba32f => 128,
        PixelFormat::Nv12 | PixelFormat::Yuv420p => 8,
    };
    let rows = if matches!(format, PixelFormat::Nv12 | PixelFormat::Yuv420p) {
        height * 3 / 2
    } else {
        height
    };
    (bpp, rows)
}

/// Law: the DRM dumb buffer requested for an image holds exactly its tight layout. Its row pitch
/// (bits per pixel over eight, times the width) is the tight row pitch, and that pitch times the
/// requested rows is the tight size; for NV12 and YUV420p images the rows are the luma rows plus
/// half as many chroma rows.
pub proof fn lemma_drm_dumb_buffer_holds_image(
    dims: ImageDimensions,
    format: PixelFormat,
    stride: usize,
    size: usize,
)
    requires
        tight_layout_result(dims, format) == Ok::<(usize, usize), ScalixError>((stride, size)),
        (format is Nv12 || format is Yuv420p) ==> dims.height * 3 <= u32::MAX,
    ensures
        drm_dumb_request_spec(dims.height, format).0 % 8 == 0,
        (drm_dumb_request_spec(dims.height, format).0 / 8) as int * dims.width == stride,
        stride as int * drm_dumb_request_spec(dims.height, format).1 == size,
        (format is Nv12 || format is Yuv420p) ==> drm_dumb_request_spec(dims.height, format).1
            == dims.height + dims.height / 2,
        !(format is Nv12 || format is Yuv420p) ==> drm_dumb_request_spec(dims.height, format).1
            == dims.height,
{
    let w = dims.width as int;
    let h = dims.height as int;
    let u = format.unit_bytes();
    let st = stride as int;
    assert(st == w * u);
    assert((drm_dumb_request_spec(dims.height, format).0 / 8) as int == u);
    assert(u * w == w * u) by (nonlinear_arith);
    if format is Nv12 || format is Yuv420p {
        assert(h % 2 == 0);
        let k = h / 2;
        assert(h == 2 * k);
        assert(h * 3 / 2 == 3 * k);
        assert(st * (3 * k) == st * h + (st * h) / 2) by (nonlinear_arith)
            requires
                h == 2 * k,
                k >= 0,
                st >= 0,
        ;
    } else {
        assert(st * (h - 1) + w * u == st * h) by (nonlinear_arith)
            requires
                st == w * u,
        ;
    }
}

pub const AHARDWAREBUFFER_FORMAT_R8G8B8A8_UNORM: u32 = 1;
pub const AHARDWAREBUFFER_FORMAT_R8G8B8_UNORM: u32 = 3;
pub const AHARDWAREBUFFER_FORMAT_Y8CB8CR8_420: u32 = 0x23;

/// `AHardwareBuffer` format code of `format`, for the formats that have one.
pub open spec fn ahb_format_spec(format: PixelFormat) -> Option<u32> {
    match format {
        PixelFormat::Rgba8888 => Some(AHARDWAREBUFFER_FORMAT_R8G8B8A8_UNORM),
        PixelFormat::Rgb888 => Some(AHARDWAREBUFFER_FORMAT_R8G8B8_UNORM),
        PixelFormat::Nv12 | PixelFormat::Yuv420p => Some(AHARDWAREBUFFER_FORMAT_Y8CB8CR8_420),
        _ => None,
    }
}

/// The `AHardwareBuffer` format code for `format`.
pub fn ahb_format_code(format: PixelFormat) -> (r: Result<u32>)
    ensures
        match ahb_format_spec(format) {
            Some(c) => r == Ok::<u32, ScalixError>(c),
            None => r == Err::<u32, ScalixError>(ScalixError::UnsupportedFormat(format)),
        },
{
    match format {
        PixelFormat::Rgba8888 => Ok(AHARDWAREBUFFER_FORMAT_R8G8B8A8_UNORM),
        PixelFormat::Rgb888 => Ok(AHARDWAREBUFFER_FORMAT_R8G8B8_UNORM),
        PixelFormat::Nv12 | PixelFormat::Yuv420p => Ok(AHARDWAREBUFFER_FORMAT_Y8CB8CR8_420),
        other => Err(ScalixError::UnsupportedFormat(other)),
    }
}

/// Row pitch and size of a locked `AHardwareBuffer` whose description reports a pitch of
/// `described_stride_px` pixels: that pitch in bytes (saturating), at least the tightest pitch.
pub open spec fn ahb_layout_result(dims: ImageDimensions, format: PixelFormat, described_stride_px: u32) -> Result<
    (usize, usize),
> {
    match format.min_stride_result(dims.width) {
        Err(e) => Err(e),
        Ok(min) => {
            let bytes = described_stride_px as int * format.unit_bytes();
            let described = if bytes <= usize::MAX { bytes } else { usize::MAX as int };
            let stride = if described >= min { described as usize } else { min };
            match format.buffer_size_result(dims, stride) {
                Err(e) => Err(e),
                Ok(n) => Ok((stride, n)),
            }
        },
    }
}

/// Row pitch and size of a locked `AHardwareBuffer`.
pub fn ahb_layout(dims: ImageDimensions, format: PixelFormat, described_stride_px: u32) -> (r: Result<
    (usize, usize),
>)
    ensures
        r == ahb_layout_result(dims, format, described_stride_px),
{
    let min = match format.min_stride(dims.width) {
        Ok(m) => m,
        Err(e) => return Err(e),
    };
    let bpp = match format.bytes_per_pixel() {
        Some(b) => b,
        None => 1,
    };
    let described = match (described_stride_px as usize).checked_mul(bpp) {
        Some(d) => d,
        None => usize::MAX,
    };
    let stride = if described >= min { described } else { min };
    let size = match format.min_buffer_size_dims(dims, stride) {
        Ok(n) => n,
        Err(e) => return Err(e),
    };
    Ok((stride, size))
}

/// Allocators tried, in order, for a request on `platform`; `None` when none exists there.
pub open spec fn dma_candidates_spec(requested: DmaAllocatorType, platform: DmaPlatform) -> Option<
    Seq<DmaAllocatorType>,
> {
    match requested {
        DmaAllocatorType::Auto => match platform {
            DmaPlatform::Linux => Some(seq![DmaAllocatorType::DmaHeap, DmaAllocatorType::DrmDumb]),
            DmaPlatform::Android => Some(seq![DmaAllocatorType::AndroidAhb, DmaAllocatorType::DmaHeap]),
            DmaPlatform::Other => None,
        },
        DmaAllocatorType::DmaHeap => if platform is Other {
            None
        } else {
            Some(seq![DmaAllocatorType::DmaHeap])
        },
        DmaAllocatorType::DrmDumb => if platform is Linux {
            Some(seq![DmaAllocatorType::DrmDumb])
        } else {
            None
        },
        DmaAllocatorType::AndroidAhb => if platform is Android {
            Some(seq![DmaAllocatorType::AndroidAhb])
        } else {
            None
        },
        DmaAllocatorType::HostAligned => Some(seq![DmaAllocatorType::HostAligned]),
    }
}

/// Why no allocator of kind `requested` exists on the platform at hand.
pub open spec fn dma_unavailable_message(requested: DmaAllocatorType) -> Seq<char> {
    match requested {
        DmaAllocatorType::DmaHeap => "DMA-Heap allocator is only available on Linux and Android"@,
        DmaAllocatorType::DrmDumb => "DRM Dumb allocator is only available on Linux"@,
        DmaAllocatorType::AndroidAhb => "Android AHardwareBuffer allocator is only available on Android"@,
        _ => "Hardware DMA buffer allocation is only supported on Linux (kernel 5.6+) and Android (API 26+)"@,
    }
}

/// Plans a DMA buffer allocation: rejects empty images, then lists the allocators to try in
/// order (automatic selection prefers DMA heaps and then DRM dumb buffers on Linux, and
/// `AHardwareBuffer`s and then DMA heaps on Android).
pub fn plan_dma_allocation(dims: ImageDimensions, requested: DmaAllocatorType, platform: DmaPlatform) -> (r:
    Result<Vec<DmaAllocatorType>>)
    ensures
        dims.spec_is_empty() ==> r == Err::<Vec<DmaAllocatorType>, ScalixError>(
            ScalixError::InvalidDimensions { width: dims.width, height: dims.height },
        ),
        !dims.spec_is_empty() ==> match dma_candidates_spec(requested, platform) {
            Some(c) => r is Ok && r->Ok_0@ == c,
            None => r matches Err(ScalixError::DmaUnavailable(m)) && m@ == dma_unavailable_message(
                requested,
            ),
        },
{
    if dims.is_empty() {
        return Err(ScalixError::InvalidDimensions { width: dims.width, height: dims.height });
    }
    match requested {
        DmaAllocatorType::Auto => match platform {
            DmaPlatform::Linux => Ok(vec![DmaAllocatorType::DmaHeap, DmaAllocatorType::DrmDumb]),
            DmaPlatform::Android => Ok(vec![DmaAllocatorType::AndroidAhb, DmaAllocatorType::DmaHeap]),
            DmaPlatform::Other => Err(
                ScalixError::DmaUnavailable(
                    "Hardware DMA buffer allocation is only supported on Linux (kernel 5.6+) and Android (API 26+)".to_owned(),
                ),
            ),
        },
        DmaAllocatorType::DmaHeap => match platform {
            DmaPlatform::Other => Err(
                ScalixError::DmaUnavailable(
                    "DMA-Heap allocator is only available on Linux and Android".to_owned(),
                ),
            ),
            _ => Ok(vec![DmaAllocatorType::DmaHeap]),
        },
        DmaAllocatorType::DrmDumb => match platform {
            DmaPlatform::Linux => Ok(vec![DmaAllocatorType::DrmDumb]),
            _ => Err(
                ScalixError::DmaUnavailable("DRM Dumb allocator is only available on Linux".to_owned()),
            ),
        },
        DmaAllocatorType::AndroidAhb => match platform {
            DmaPlatform::Android => Ok(vec![DmaAllocatorType::AndroidAhb]),
            _ => Err(
                ScalixError::DmaUnavailable(
                    "Android AHardwareBuffer allocator is only available on Android".to_owned(),
                ),
            ),
        },
        DmaAllocatorType::HostAligned => Ok(vec![DmaAllocatorType::HostAligned]),
    }
}

/// Law: an explicitly requested allocator is tried alone, and is offered exactly on the
/// platforms it exists on (DMA heaps on Linux and Android, DRM dumb buffers on Linux,
/// `AHardwareBuffer`s on Android, host memory everywhere). Automatic selection on Linux or
/// Android tries two different allocators, each one that an explicit request on that platform
/// would be offered: on Linux DMA heaps before DRM dumb buffers, on Android `AHardwareBuffer`s
/// before DMA heaps.
pub proof fn lemma_dma_candidates(requested: DmaAllocatorType, platform: DmaPlatform)
    ensures
        !(requested is Auto) ==> (dma_candidates_spec(requested, platform) is None || dma_candidates_spec(
            requested,
            platform,
        ) == Some(seq![requested])),
        requested is HostAligned ==> dma_candidates_spec(requested, platform) is Some,
        requested is DmaHeap ==> (dma_candidates_spec(requested, platform) is Some <==> !(
        platform is Other)),
        requested is DrmDumb ==> (dma_candidates_spec(requested, platform) is Some <==> platform is Linux),
        requested is AndroidAhb ==> (dma_candidates_spec(requested, platform) is Some
            <==> platform is Android),
        requested is Auto ==> (dma_candidates_spec(requested, platform) is None <==> platform is Other),
        requested is Auto && !(platform is Other) ==> {
            let c = dma_candidates_spec(requested, platform)->0;
            &&& c.len() == 2
            &&& c[0] != c[1]
            &&& dma_candidates_spec(c[0], platform) == Some(seq![c[0]])
            &&& dma_candidates_spec(c[1], platform) == Some(seq![c[1]])
            &&& platform is Linux ==> c[0] is DmaHeap && c[1] is DrmDumb
            &&& platform is Android ==> c[0] is AndroidAhb && c[1] is DmaHeap
        },
{
}

/// Law: a locked `AHardwareBuffer` is read with the pitch its description reports (in bytes)
/// whenever that pitch holds a whole row, and with the tightest pitch otherwise; either way the
/// pitch holds a row and the size is the image's size at that pitch.
pub proof fn lemma_ahb_pitch(dims: ImageDimensions, format: PixelFormat, described_stride_px: u32, stride: usize, size: usize)
    requires
        ahb_layout_result(dims, format, described_stride_px) == Ok::<(usize, usize), ScalixError>((stride, size)),
    ensures
        stride >= format.min_stride_of(dims.width as int),
        described_stride_px as int * format.unit_bytes() <= usize::MAX && described_stride_px as int
            * format.unit_bytes() >= format.min_stride_of(dims.width as int) ==> stride
            == described_stride_px as int * format.unit_bytes(),
        described_stride_px as int * format.unit_bytes() < format.min_stride_of(dims.width as int)
            ==> stride == format.min_stride_of(dims.width as int),
        size == format.required_bytes(dims, stride as int),
{
}

/// Message of the failure reported when every allocator of an automatic selection on
/// `platform` failed, quoting the errors of the first and the second allocator tried.
pub open spec fn auto_failure_message(platform: DmaPlatform, first: Seq<char>, second: Seq<char>) -> Seq<
    char,
> {
    match platform {
        DmaPlatform::Linux => "All Linux DMA allocators failed. DMA-Heap: ["@ + first + "], DRM: ["@
            + second + "]"@,
        DmaPlatform::Android => "All Android DMA allocators failed. AHB: ["@ + first + "], DMA-Heap: ["@
            + second + "]"@,
        DmaPlatform::Other => dma_unavailable_message(DmaAllocatorType::Auto),
    }
}

/// The error of an automatic allocation whose two candidates failed with `first_err` and
/// `second_err` (the texts of their errors, in the order the allocators were tried).
pub fn auto_allocation_failure(platform: DmaPlatform, first_err: &str, second_err: &str) -> (r:
    ScalixError)
    ensures
        r matches ScalixError::DmaUnavailable(m) && m@ == auto_failure_message(
            platform,
            first_err@,
            second_err@,
        ),
{
    let mut msg = match platform {
        DmaPlatform::Linux => "All Linux DMA allocators failed. DMA-Heap: [".to_owned(),
        DmaPlatform::Android => "All Android DMA allocators failed. AHB: [".to_owned(),
        DmaPlatform::Other => {
            return ScalixError::DmaUnavailable(
                "Hardware DMA buffer allocation is only supported on Linux (kernel 5.6+) and Android (API 26+)".to_owned(),
            );
        },
    };
    msg.append(first_err);
    match platform {
        DmaPlatform::Android => msg.append("], DMA-Heap: ["),
        _ => msg.append("], DRM: ["),
    }
    msg.append(second_err);
    msg.append("]");
    ScalixError::DmaUnavailable(msg)
}

} // verus!
