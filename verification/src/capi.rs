//! Value types of the C interface and their conversion to and from the core types.
use vstd::prelude::*;

use crate::backend::strategy::{GlOptions, GlStrategy, VulkanOptions, VulkanStrategy};
use crate::desc::{layout_result, ImageDesc, ImageDescMut};
use crate::dma::DmaAllocatorType;
use crate::options::{BackendOptions, ResizeOptions};
use crate::types::{BackendType, FilterMode, PixelFormat, Result, ScalixError, REQUIRED_MEMORY_ALIGNMENT};

verus! {

pub const SCALIX_SUCCESS: i32 = 0;
pub const SCALIX_ERR_NULL_PTR: i32 = -1;
pub const SCALIX_ERR_INVALID_DIMENSIONS: i32 = -2;
pub const SCALIX_ERR_INVALID_STRIDE: i32 = -3;
pub const SCALIX_ERR_BUFFER_TOO_SMALL: i32 = -4;
pub const SCALIX_ERR_UNSUPPORTED_FORMAT: i32 = -5;
pub const SCALIX_ERR_BACKEND_UNAVAILABLE: i32 = -6;
pub const SCALIX_ERR_TIMEOUT: i32 = -7;
pub const SCALIX_ERR_DMA_UNAVAILABLE: i32 = -8;
pub const SCALIX_ERR_DMA_ALLOCATION_FAILED: i32 = -9;
pub const SCALIX_ERR_DMA_MAP_FAILED: i32 = -10;
pub const SCALIX_ERR_DMA_SYNC_FAILED: i32 = -11;
pub const SCALIX_ERR_UNALIGNED_POINTER: i32 = -12;
pub const SCALIX_ERR_FAILED: i32 = -99;

/// Status code the C interface reports for `err`.
pub open spec fn error_code_spec(err: ScalixError) -> i32 {
    match err {
        ScalixError::NullPointer => SCALIX_ERR_NULL_PTR,
        ScalixError::InvalidDimensions { .. } => SCALIX_ERR_INVALID_DIMENSIONS,
        ScalixError::InvalidStride { .. } => SCALIX_ERR_INVALID_STRIDE,
        ScalixError::BufferTooSmall { .. } => SCALIX_ERR_BUFFER_TOO_SMALL,
        ScalixError::UnsupportedFormat(_) => SCALIX_ERR_UNSUPPORTED_FORMAT,
        ScalixError::BackendUnavailable(_) => SCALIX_ERR_BACKEND_UNAVAILABLE,
        ScalixError::Timeout => SCALIX_ERR_TIMEOUT,
        ScalixError::DmaUnavailable(_) => SCALIX_ERR_DMA_UNAVAILABLE,
        ScalixError::DmaAllocationFailed(_) => SCALIX_ERR_DMA_ALLOCATION_FAILED,
        ScalixError::DmaMapFailed(_) => SCALIX_ERR_DMA_MAP_FAILED,
        ScalixError::DmaSyncFailed(_) => SCALIX_ERR_DMA_SYNC_FAILED,
        ScalixError::UnalignedPointer { .. } => SCALIX_ERR_UNALIGNED_POINTER,
        _ => SCALIX_ERR_FAILED,
    }
}

/// Maps an error onto its C status code.
pub fn map_error_to_code(err: ScalixError) -> (r: i32)
    ensures
        r == error_code_spec(err),
{
    error_code_of(&err)
}

fn error_code_of(err: &ScalixError) -> (r: i32)
    ensures
        r == error_code_spec(*err),
{
    match err {
        ScalixError::NullPointer => SCALIX_ERR_NULL_PTR,
        ScalixError::InvalidDimensions { .. } => SCALIX_ERR_INVALID_DIMENSIONS,
        ScalixError::InvalidStride { .. } => SCALIX_ERR_INVALID_STRIDE,
        ScalixError::BufferTooSmall { .. } => SCALIX_ERR_BUFFER_TOO_SMALL,
        ScalixError::UnsupportedFormat(_) => SCALIX_ERR_UNSUPPORTED_FORMAT,
        ScalixError::BackendUnavailable(_) => SCALIX_ERR_BACKEND_UNAVAILABLE,
        ScalixError::Timeout => SCALIX_ERR_TIMEOUT,
        ScalixError::DmaUnavailable(_) => SCALIX_ERR_DMA_UNAVAILABLE,
        ScalixError::DmaAllocationFailed(_) => SCALIX_ERR_DMA_ALLOCATION_FAILED,
        ScalixError::DmaMapFailed(_) => SCALIX_ERR_DMA_MAP_FAILED,
        ScalixError::DmaSyncFailed(_) => SCALIX_ERR_DMA_SYNC_FAILED,
        ScalixError::UnalignedPointer { .. } => SCALIX_ERR_UNALIGNED_POINTER,
        _ => SCALIX_ERR_FAILED,
    }
}

/// Law: every error maps to a negative status code, so no failure reads as success.
pub proof fn lemma_error_codes_are_failures(err: ScalixError)
    ensures
        error_code_spec(err) < 0,
        error_code_spec(err) != SCALIX_SUCCESS,
{
}

/// Backend selection of the C interface.
#[derive(Debug, Clone, Copy, PartialEq, Eq, Structural)]
pub enum ScalixBackendType {
    Auto,
    Vulkan,
    OpenGL,
    Npu,
    Hw2d,
    Cpu,
    Passthrough,
}

pub open spec fn backend_type_from_c(b: ScalixBackendType) -> BackendType {
    match b {
        ScalixBackendType::Auto => BackendType::Auto,
        ScalixBackendType::Vulkan => BackendType::Vulkan,
        ScalixBackendType::OpenGL => BackendType::OpenGL,
        ScalixBackendType::Npu => BackendType::Npu,
        ScalixBackendType::Hw2d => BackendType::Hw2d,
        ScalixBackendType::Cpu => BackendType::Cpu,
        ScalixBackendType::Passthrough => BackendType::Passthrough,
    }
}

impl From<ScalixBackendType> for BackendType {
    fn from(b: ScalixBackendType) -> Self {
        match b {
            ScalixBackendType::Auto => BackendType::Auto,
            ScalixBackendType::Vulkan => BackendType::Vulkan,
            ScalixBackendType::OpenGL => BackendType::OpenGL,
            ScalixBackendType::Npu => BackendType::Npu,
            ScalixBackendType::Hw2d => BackendType::Hw2d,
            ScalixBackendType::Cpu => BackendType::Cpu,
            ScalixBackendType::Passthrough => BackendType::Passthrough,
        }
    }
}

impl vstd::std_specs::convert::FromSpecImpl<ScalixBackendType> for BackendType {
    open spec fn obeys_from_spec() -> bool {
        true
    }

    open spec fn from_spec(b: ScalixBackendType) -> Self {
        backend_type_from_c(b)
    }
}

/// The C interface's name for the backend `t` (the C enumeration has no OpenCL entry; OpenCL
/// engines report under their own name).
pub open spec fn backend_name_spec(t: BackendType) -> Seq<char> {
    match t {
        BackendType::Vulkan => "Vulkan"@,
        BackendType::OpenGL => "OpenGL"@,
        BackendType::Npu => "NPU"@,
        BackendType::Hw2d => "Hardware 2D"@,
        BackendType::Cpu => "CPU (Fallback)"@,
        BackendType::Passthrough => "Passthrough"@,
        BackendType::Auto => "Auto"@,
        BackendType::OpenCL => "OpenCL"@,
    }
}

/// Name the C interface reports for an engine running backend `t`.
pub fn backend_display_name(t: BackendType) -> (r: &'static str)
    ensures
        r@ == backend_name_spec(t),
{
    match t {
        BackendType::Vulkan => "Vulkan",
        BackendType::OpenGL => "OpenGL",
        BackendType::Npu => "NPU",
        BackendType::Hw2d => "Hardware 2D",
        BackendType::Cpu => "CPU (Fallback)",
        BackendType::Passthrough => "Passthrough",
        BackendType::Auto => "Auto",
        BackendType::OpenCL => "OpenCL",
    }
}

/// C enumeration entry reported for backend `t` (OpenCL, which the C enumeration lacks, is
/// reported as `Auto`).
pub open spec fn backend_type_to_c_spec(t: BackendType) -> ScalixBackendType {
    match t {
        BackendType::Auto => ScalixBackendType::Auto,
        BackendType::Vulkan => ScalixBackendType::Vulkan,
        BackendType::OpenGL => ScalixBackendType::OpenGL,
        BackendType::Npu => ScalixBackendType::Npu,
        BackendType::Hw2d => ScalixBackendType::Hw2d,
        BackendType::Cpu => ScalixBackendType::Cpu,
        BackendType::Passthrough => ScalixBackendType::Passthrough,
        BackendType::OpenCL => ScalixBackendType::Auto,
    }
}

/// C enumeration entry reported for backend `t`.
pub fn backend_type_to_c(t: BackendType) -> (r: ScalixBackendType)
    ensures
        r == backend_type_to_c_spec(t),
{
    match t {
        BackendType::Auto => ScalixBackendType::Auto,
        BackendType::Vulkan => ScalixBackendType::Vulkan,
        BackendType::OpenGL => ScalixBackendType::OpenGL,
        BackendType::Npu => ScalixBackendType::Npu,
        BackendType::Hw2d => ScalixBackendType::Hw2d,
        BackendType::Cpu => ScalixBackendType::Cpu,
        BackendType::Passthrough => ScalixBackendType::Passthrough,
        BackendType::OpenCL => ScalixBackendType::Auto,
    }
}

/// Law: converting a C backend selection to the core type and back is the identity.
pub proof fn lemma_backend_type_roundtrip(b: ScalixBackendType)
    ensures
        backend_type_to_c_spec(backend_type_from_c(b)) == b,
{
}

/// Execution strategy of the C interface (shared by the Vulkan and OpenGL options).
#[derive(Debug, Clone, Copy, PartialEq, Eq, Structural)]
pub enum ScalixStrategy {
    Auto,
    Blit,
    Raster,
    LodPyramid,
    Compute,
}

pub open spec fn vulkan_strategy_from_c(s: ScalixStrategy) -> VulkanStrategy {
    match s {
        ScalixStrategy::Auto => VulkanStrategy::Auto,
        ScalixStrategy::Blit => VulkanStrategy::Blit,
        ScalixStrategy::Raster => VulkanStrategy::Raster,
        ScalixStrategy::LodPyramid => VulkanStrategy::LodPyramid,
        ScalixStrategy::Compute => VulkanStrategy::Compute,
    }
}

pub open spec fn gl_strategy_from_c(s: ScalixStrategy) -> GlStrategy {
    match s {
        ScalixStrategy::Auto => GlStrategy::Auto,
        ScalixStrategy::Blit => GlStrategy::Blit,
        ScalixStrategy::Raster => GlStrategy::Raster,
        ScalixStrategy::LodPyramid => GlStrategy::LodPyramid,
        ScalixStrategy::Compute => GlStrategy::Compute,
    }
}

impl From<ScalixStrategy> for VulkanStrategy {
    fn from(s: ScalixStrategy) -> Self {
        match s {
            ScalixStrategy::Auto => VulkanStrategy::Auto,
            ScalixStrategy::Blit => VulkanStrategy::Blit,
            ScalixStrategy::Raster => VulkanStrategy::Raster,
            ScalixStrategy::LodPyramid => VulkanStrategy::LodPyramid,
            ScalixStrategy::Compute => VulkanStrategy::Compute,
        }
    }
}

impl vstd::std_specs::convert::FromSpecImpl<ScalixStrategy> for VulkanStrategy {
    open spec fn obeys_from_spec() -> bool {
        true
    }

    open spec fn from_spec(s: ScalixStrategy) -> Self {
        vulkan_strategy_from_c(s)
    }
}

impl From<ScalixStrategy> for GlStrategy {
    fn from(s: ScalixStrategy) -> Self {
        match s {
            ScalixStrategy::Auto => GlStrategy::Auto,
            ScalixStrategy::Blit => GlStrategy::Blit,
            ScalixStrategy::Raster => GlStrategy::Raster,
            ScalixStrategy::LodPyramid => GlStrategy::LodPyramid,
            ScalixStrategy::Compute => GlStrategy::Compute,
        }
    }
}

impl vstd::std_specs::convert::FromSpecImpl<ScalixStrategy> for GlStrategy {
    open spec fn obeys_from_spec() -> bool {
        true
    }

    open spec fn from_spec(s: ScalixStrategy) -> Self {
        gl_strategy_from_c(s)
    }
}

/// Header shared by all backend option records of the C interface.
#[derive(Debug, Clone, Copy, PartialEq, Eq, Structural)]
pub struct ScalixBackendOptions {
    pub backend_type: ScalixBackendType,
    /// Size in bytes of the complete record the header starts.
    pub struct_size: u32,
}

/// Size in bytes of the C layout of `ScalixVulkanOptions` and of `ScalixGlOptions`: a two-field
/// header of 4-byte fields followed by two 4-byte fields.
pub const SCALIX_BACKEND_RECORD_SIZE: u32 = 16;

/// Vulkan option record of the C interface.
#[derive(Debug, Clone, Copy, PartialEq, Eq, Structural)]
pub struct ScalixVulkanOptions {
    pub header: ScalixBackendOptions,
    pub strategy: ScalixStrategy,
    pub max_mip_levels: u32,
}

impl Default for ScalixVulkanOptions {
    fn default() -> (r: Self)
        ensures
            r == (ScalixVulkanOptions {
                header: ScalixBackendOptions {
                    backend_type: ScalixBackendType::Vulkan,
                    struct_size: SCALIX_BACKEND_RECORD_SIZE,
                },
                strategy: ScalixStrategy::Auto,
                max_mip_levels: 0,
            }),
    {
        ScalixVulkanOptions {
            header: ScalixBackendOptions {
                backend_type: ScalixBackendType::Vulkan,
                struct_size: SCALIX_BACKEND_RECORD_SIZE,
            },
            strategy: ScalixStrategy::Auto,
            max_mip_levels: 0,
        }
    }
}

impl From<ScalixVulkanOptions> for VulkanOptions {
    fn from(v: ScalixVulkanOptions) -> Self {
        VulkanOptions { strategy: VulkanStrategy::from(v.strategy), max_mip_levels: v.max_mip_levels }
    }
}

impl vstd::std_specs::convert::FromSpecImpl<ScalixVulkanOptions> for VulkanOptions {
    open spec fn obeys_from_spec() -> bool {
        true
    }

    open spec fn from_spec(v: ScalixVulkanOptions) -> Self {
        VulkanOptions { strategy: vulkan_strategy_from_c(v.strategy), max_mip_levels: v.max_mip_levels }
    }
}

/// OpenGL option record of the C interface.
#[derive(Debug, Clone, Copy, PartialEq, Eq, Structural)]
pub struct ScalixGlOptions {
    pub header: ScalixBackendOptions,
    pub strategy: ScalixStrategy,
    pub max_mip_levels: u32,
}

impl Default for ScalixGlOptions {
    fn default() -> (r: Self)
        ensures
            r == (ScalixGlOptions {
                header: ScalixBackendOptions {
                    backend_type: ScalixBackendType::OpenGL,
                    struct_size: SCALIX_BACKEND_RECORD_SIZE,
                },
                strategy: ScalixStrategy::Auto,
                max_mip_levels: 0,
            }),
    {
        ScalixGlOptions {
            header: ScalixBackendOptions {
                backend_type: ScalixBackendType::OpenGL,
                struct_size: SCALIX_BACKEND_RECORD_SIZE,
            },
            strategy: ScalixStrategy::Auto,
            max_mip_levels: 0,
        }
    }
}

impl From<ScalixGlOptions> for GlOptions {
    fn from(g: ScalixGlOptions) -> Self {
        GlOptions { strategy: GlStrategy::from(g.strategy), max_mip_levels: g.max_mip_levels }
    }
}

impl vstd::std_specs::convert::FromSpecImpl<ScalixGlOptions> for GlOptions {
    open spec fn obeys_from_spec() -> bool {
        true
    }

    open spec fn from_spec(g: ScalixGlOptions) -> Self {
        GlOptions { strategy: gl_strategy_from_c(g.strategy), max_mip_levels: g.max_mip_levels }
    }
}

/// DMA allocator selection of the C interface.
#[derive(Debug, Clone, Copy, PartialEq, Eq, Structural)]
pub enum ScalixAllocatorType {
    Auto,
    DmaHeap,
    DrmDumb,
    AndroidAhb,
    HostAligned,
}

pub open spec fn allocator_from_c(a: ScalixAllocatorType) -> DmaAllocatorType {
    match a {
        ScalixAllocatorType::Auto => DmaAllocatorType::Auto,
        ScalixAllocatorType::DmaHeap => DmaAllocatorType::DmaHeap,
        ScalixAllocatorType::DrmDumb => DmaAllocatorType::DrmDumb,
        ScalixAllocatorType::AndroidAhb => DmaAllocatorType::AndroidAhb,
        ScalixAllocatorType::HostAligned => DmaAllocatorType::HostAligned,
    }
}

pub open spec fn allocator_to_c(a: DmaAllocatorType) -> ScalixAllocatorType {
    match a {
        DmaAllocatorType::Auto => ScalixAllocatorType::Auto,
        DmaAllocatorType::DmaHeap => ScalixAllocatorType::DmaHeap,
        DmaAllocatorType::DrmDumb => ScalixAllocatorType::DrmDumb,
        DmaAllocatorType::AndroidAhb => ScalixAllocatorType::AndroidAhb,
        DmaAllocatorType::HostAligned => ScalixAllocatorType::HostAligned,
    }
}

impl From<ScalixAllocatorType> for DmaAllocatorType {
    fn from(a: ScalixAllocatorType) -> Self {
        match a {
            ScalixAllocatorType::Auto => DmaAllocatorType::Auto,
            ScalixAllocatorType::DmaHeap => DmaAllocatorType::DmaHeap,
            ScalixAllocatorType::DrmDumb => DmaAllocatorType::DrmDumb,
            ScalixAllocatorType::AndroidAhb => DmaAllocatorType::AndroidAhb,
            ScalixAllocatorType::HostAligned => DmaAllocatorType::HostAligned,
        }
    }
}

impl vstd::std_specs::convert::FromSpecImpl<ScalixAllocatorType> for DmaAllocatorType {
    open spec fn obeys_from_spec() -> bool {
        true
    }

    open spec fn from_spec(a: ScalixAllocatorType) -> Self {
        allocator_from_c(a)
    }
}

impl From<DmaAllocatorType> for ScalixAllocatorType {
    fn from(a: DmaAllocatorType) -> Self {
        match a {
            DmaAllocatorType::Auto => ScalixAllocatorType::Auto,
            DmaAllocatorType::DmaHeap => ScalixAllocatorType::DmaHeap,
            DmaAllocatorType::DrmDumb => ScalixAllocatorType::DrmDumb,
            DmaAllocatorType::AndroidAhb => ScalixAllocatorType::AndroidAhb,
            DmaAllocatorType::HostAligned => ScalixAllocatorType::HostAligned,
        }
    }
}

impl vstd::std_specs::convert::FromSpecImpl<DmaAllocatorType> for ScalixAllocatorType {
    open spec fn obeys_from_spec() -> bool {
        true
    }

    open spec fn from_spec(a: DmaAllocatorType) -> Self {
        allocator_to_c(a)
    }
}

/// Law: allocator selections convert between the C and core enumerations without loss,
/// in both directions.
pub proof fn lemma_allocator_type_roundtrip(a: ScalixAllocatorType, b: DmaAllocatorType)
    ensures
        allocator_to_c(allocator_from_c(a)) == a,
        allocator_from_c(allocator_to_c(b)) == b,
{
}

/// Filter selection of the C interface.
#[derive(Debug, Clone, Copy, PartialEq, Eq, Structural)]
pub enum ScalixFilterMode {
    Nearest,
    Bilinear,
    Bicubic,
    Lanczos3,
    Area,
    Passthrough,
}

pub open spec fn filter_from_c(f: ScalixFilterMode) -> FilterMode {
    match f {
        ScalixFilterMode::Nearest => FilterMode::Nearest,
        ScalixFilterMode::Bilinear => FilterMode::Bilinear,
        ScalixFilterMode::Bicubic => FilterMode::Bicubic,
        ScalixFilterMode::Lanczos3 => FilterMode::Lanczos3,
        ScalixFilterMode::Area => FilterMode::Area,
        ScalixFilterMode::Passthrough => FilterMode::Passthrough,
    }
}

impl From<ScalixFilterMode> for FilterMode {
    fn from(f: ScalixFilterMode) -> Self {
        match f {
            ScalixFilterMode::Nearest => FilterMode::Nearest,
            ScalixFilterMode::Bilinear => FilterMode::Bilinear,
            ScalixFilterMode::Bicubic => FilterMode::Bicubic,
            ScalixFilterMode::Lanczos3 => FilterMode::Lanczos3,
            ScalixFilterMode::Area => FilterMode::Area,
            ScalixFilterMode::Passthrough => FilterMode::Passthrough,
        }
    }
}

impl vstd::std_specs::convert::FromSpecImpl<ScalixFilterMode> for FilterMode {
    open spec fn obeys_from_spec() -> bool {
        true
    }

    open spec fn from_spec(f: ScalixFilterMode) -> Self {
        filter_from_c(f)
    }
}

/// Pixel format selection of the C interface.
#[derive(Debug, Clone, Copy, PartialEq, Eq, Structural)]
pub enum ScalixPixelFormat {
    Rgba8888,
    Bgra8888,
    Rgb888,
    Bgr888,
    R8,
    Rg88,
    Nv12,
    Yuv420p,
    Rgba16f,
    Rgba32f,
}

pub open spec fn pixel_format_from_c(f: ScalixPixelFormat) -> PixelFormat {
    match f {
        ScalixPixelFormat::Rgba8888 => PixelFormat::Rgba8888,
        ScalixPixelFormat::Bgra8888 => PixelFormat::Bgra8888,
        ScalixPixelFormat::Rgb888 => PixelFormat::Rgb888,
        ScalixPixelFormat::Bgr888 => PixelFormat::Bgr888,
        ScalixPixelFormat::R8 => PixelFormat::R8,
        ScalixPixelFormat::Rg88 => PixelFormat::Rg88,
        ScalixPixelFormat::Nv12 => PixelFormat::Nv12,
        ScalixPixelFormat::Yuv420p => PixelFormat::Yuv420p,
        ScalixPixelFormat::Rgba16f => PixelFormat::Rgba16f,
        ScalixPixelFormat::Rgba32f => PixelFormat::Rgba32f,
    }
}

pub open spec fn pixel_format_to_c_spec(f: PixelFormat) -> ScalixPixelFormat {
    match f {
        PixelFormat::Rgba8888 => ScalixPixelFormat::Rgba8888,
        PixelFormat::Bgra8888 => ScalixPixelFormat::Bgra8888,
        PixelFormat::Rgb888 => ScalixPixelFormat::Rgb888,
        PixelFormat::Bgr888 => ScalixPixelFormat::Bgr888,
        PixelFormat::R8 => ScalixPixelFormat::R8,
        PixelFormat::Rg88 => ScalixPixelFormat::Rg88,
        PixelFormat::Nv12 => ScalixPixelFormat::Nv12,
        PixelFormat::Yuv420p => ScalixPixelFormat::Yuv420p,
        PixelFormat::Rgba16f => ScalixPixelFormat::Rgba16f,
        PixelFormat::Rgba32f => ScalixPixelFormat::Rgba32f,
    }
}

impl From<ScalixPixelFormat> for PixelFormat {
    fn from(f: ScalixPixelFormat) -> Self {
        match f {
            ScalixPixelFormat::Rgba8888 => PixelFormat::Rgba8888,
            ScalixPixelFormat::Bgra8888 => PixelFormat::Bgra8888,
            ScalixPixelFormat::Rgb888 => PixelFormat::Rgb888,
            ScalixPixelFormat::Bgr888 => PixelFormat::Bgr888,
            ScalixPixelFormat::R8 => PixelFormat::R8,
            ScalixPixelFormat::Rg88 => PixelFormat::Rg88,
            ScalixPixelFormat::Nv12 => PixelFormat::Nv12,
            ScalixPixelFormat::Yuv420p => PixelFormat::Yuv420p,
            ScalixPixelFormat::Rgba16f => PixelFormat::Rgba16f,
            ScalixPixelFormat::Rgba32f => PixelFormat::Rgba32f,
        }
    }
}

impl vstd::std_specs::convert::FromSpecImpl<ScalixPixelFormat> for PixelFormat {
    open spec fn obeys_from_spec() -> bool {
        true
    }

    open spec fn from_spec(f: ScalixPixelFormat) -> Self {
        pixel_format_from_c(f)
    }
}

/// C enumeration entry of a pixel format.
pub fn pixel_format_to_c(f: PixelFormat) -> (r: ScalixPixelFormat)
    ensures
        r == pixel_format_to_c_spec(f),
{
    match f {
        PixelFormat::Rgba8888 => ScalixPixelFormat::Rgba8888,
        PixelFormat::Bgra8888 => ScalixPixelFormat::Bgra8888,
        PixelFormat::Rgb888 => ScalixPixelFormat::Rgb888,
        PixelFormat::Bgr888 => ScalixPixelFormat::Bgr888,
        PixelFormat::R8 => ScalixPixelFormat::R8,
        PixelFormat::Rg88 => ScalixPixelFormat::Rg88,
        PixelFormat::Nv12 => ScalixPixelFormat::Nv12,
        PixelFormat::Yuv420p => ScalixPixelFormat::Yuv420p,
        PixelFormat::Rgba16f => ScalixPixelFormat::Rgba16f,
        PixelFormat::Rgba32f => ScalixPixelFormat::Rgba32f,
    }
}

/// Law: pixel formats convert between the C and core enumerations without loss.
pub proof fn lemma_pixel_format_roundtrip(a: ScalixPixelFormat, b: PixelFormat)
    ensures
        pixel_format_to_c_spec(pixel_format_from_c(a)) == a,
        pixel_format_from_c(pixel_format_to_c_spec(b)) == b,
{
}

/// Which backend option record a C header introduces.
#[derive(Debug, Clone, Copy, PartialEq, Eq, Structural)]
pub enum BackendRecordKind {
    /// A complete `ScalixVulkanOptions` record.
    Vulkan,
    /// A complete `ScalixGlOptions` record.
    Gl,
    /// A record this interface does not read (other backend, or too short).
    Ignored,
}

/// Record kind a header announces: a Vulkan or OpenGL record only when it is at least as long
/// as the full record.
pub open spec fn backend_record_kind_spec(header: ScalixBackendOptions) -> BackendRecordKind {
    if header.backend_type is Vulkan && header.struct_size >= SCALIX_BACKEND_RECORD_SIZE {
        BackendRecordKind::Vulkan
    } else if header.backend_type is OpenGL && header.struct_size >= SCALIX_BACKEND_RECORD_SIZE {
        BackendRecordKind::Gl
    } else {
        BackendRecordKind::Ignored
    }
}

/// Decides which record the backend options behind `header` may be read as.
pub fn backend_record_kind(header: &ScalixBackendOptions) -> (r: BackendRecordKind)
    ensures
        r == backend_record_kind_spec(*header),
{
    match header.backend_type {
        ScalixBackendType::Vulkan if header.struct_size >= SCALIX_BACKEND_RECORD_SIZE => BackendRecordKind::Vulkan,
        ScalixBackendType::OpenGL if header.struct_size >= SCALIX_BACKEND_RECORD_SIZE => BackendRecordKind::Gl,
        _ => BackendRecordKind::Ignored,
    }
}

/// Backend options read from a C request.
#[derive(Debug, Clone, Copy, PartialEq, Eq, Structural)]
pub enum ScalixBackendRecord {
    Absent,
    Vulkan(ScalixVulkanOptions),
    Gl(ScalixGlOptions),
    Ignored,
}

/// Resize options of a C request, with the backend record already read.
#[derive(Debug, Clone, Copy, PartialEq, Eq, Structural)]
pub struct ScalixResizeOptions {
    pub filter: ScalixFilterMode,
    pub backend_options: ScalixBackendRecord,
}

impl ScalixResizeOptions {
    /// Core options of this request.
    pub open spec fn spec_to_core(self) -> ResizeOptions {
        ResizeOptions {
            filter: filter_from_c(self.filter),
            backend_options: match self.backend_options {
                ScalixBackendRecord::Vulkan(v) => BackendOptions::Vulkan(
                    VulkanOptions { strategy: vulkan_strategy_from_c(v.strategy), max_mip_levels: v.max_mip_levels },
                ),
                ScalixBackendRecord::Gl(g) => BackendOptions::Gl(
                    GlOptions { strategy: gl_strategy_from_c(g.strategy), max_mip_levels: g.max_mip_levels },
                ),
                _ => BackendOptions::Unspecified,
            },
        }
    }

    /// Converts the request into core resize options.
    pub fn to_core(&self) -> (r: ResizeOptions)
        ensures
            r == self.spec_to_core(),
    {
        let core_options = ResizeOptions::new(FilterMode::from(self.filter));
        match self.backend_options {
            ScalixBackendRecord::Vulkan(vk) => core_options.with_vulkan_options(
                VulkanOptions { strategy: VulkanStrategy::from(vk.strategy), max_mip_levels: vk.max_mip_levels },
            ),
            ScalixBackendRecord::Gl(gl) => core_options.with_gl_options(
                GlOptions { strategy: GlStrategy::from(gl.strategy), max_mip_levels: gl.max_mip_levels },
            ),
            _ => core_options,
        }
    }
}

/// How long to wait for a task, in milliseconds: 0 and `u32::MAX` both mean without limit.
pub fn task_wait_timeout(timeout_ms: u32) -> (r: Option<u64>)
    ensures
        r == (if timeout_ms == 0 || timeout_ms == u32::MAX {
            None::<u64>
        } else {
            Some(timeout_ms as u64)
        }),
{
    if timeout_ms == 0 || timeout_ms == u32::MAX {
        None
    } else {
        Some(timeout_ms as u64)
    }
}

/// Status a C wait reports for a task whose wait ended with `outcome`.
pub open spec fn wait_status_spec<T>(outcome: Result<T>) -> i32 {
    match outcome {
        Ok(_) => SCALIX_SUCCESS,
        Err(e) => error_code_spec(e),
    }
}

/// Status of a C wait that ended with `outcome`, and whether the task stays pending (only a
/// timed-out wait leaves it pending, so that it can be waited on again).
pub fn task_wait_disposition<T>(outcome: &Result<T>) -> (r: (i32, bool))
    ensures
        r.0 == wait_status_spec(*outcome),
        r.1 == (*outcome matches Err(ScalixError::Timeout)),
{
    match outcome {
        Ok(_) => (SCALIX_SUCCESS, false),
        Err(ScalixError::Timeout) => (SCALIX_ERR_TIMEOUT, true),
        Err(e) => (error_code_of(e), false),
    }
}

/// Status of copying a finished image of `image_len` bytes into a caller buffer of `out_len`
/// bytes.
pub fn task_output_status(out_len: usize, image_len: usize) -> (r: i32)
    ensures
        r == (if out_len < image_len { SCALIX_ERR_BUFFER_TOO_SMALL } else { SCALIX_SUCCESS }),
{
    if out_len < image_len {
        SCALIX_ERR_BUFFER_TOO_SMALL
    } else {
        SCALIX_SUCCESS
    }
}

/// Builds the source descriptor of a C request over its mapped bytes: validates the layout and
/// records the DMA-BUF descriptor when it is not negative.
pub fn extract_image_desc<'a>(
    width: u32,
    height: u32,
    stride_bytes: usize,
    format: ScalixPixelFormat,
    data: &'a [u8],
    dma_buf_fd: i32,
) -> (r: Result<ImageDesc<'a>>)
    ensures
        match r {
            Ok(d) => {
                &&& layout_result(width, height, stride_bytes, pixel_format_from_c(format), data@.len() as usize) is Ok
                &&& d.width == width && d.height == height && d.stride == stride_bytes
                &&& d.format == pixel_format_from_c(format) && d.data@ == data@
                &&& d.dma_buf_fd == (if dma_buf_fd >= 0 { Some(dma_buf_fd) } else { None::<i32> })
            },
            Err(ScalixError::UnalignedPointer { address, alignment }) => {
                alignment == REQUIRED_MEMORY_ALIGNMENT && address % 64 != 0
            },
            Err(e) => layout_result(width, height, stride_bytes, pixel_format_from_c(format), data@.len() as usize)
                == Err::<(), ScalixError>(e),
        },
{
    let desc = match ImageDesc::new(width, height, stride_bytes, PixelFormat::from(format), data) {
        Ok(d) => d,
        Err(e) => return Err(e),
    };
    if dma_buf_fd >= 0 {
        Ok(desc.with_dma_buf(dma_buf_fd))
    } else {
        Ok(desc)
    }
}

/// Builds the destination descriptor of a C request over its mapped bytes.
pub fn extract_image_desc_mut<'a>(
    width: u32,
    height: u32,
    stride_bytes: usize,
    format: ScalixPixelFormat,
    data: &'a mut [u8],
    dma_buf_fd: i32,
) -> (r: Result<ImageDescMut<'a>>)
    ensures
        match r {
            Ok(d) => {
                &&& layout_result(width, height, stride_bytes, pixel_format_from_c(format), old(data)@.len() as usize) is Ok
                &&& d.width == width && d.height == height && d.stride == stride_bytes
                &&& d.format == pixel_format_from_c(format) && d.data@ == old(data)@
                &&& final(d.data)@ == final(data)@
                &&& d.dma_buf_fd == (if dma_buf_fd >= 0 { Some(dma_buf_fd) } else { None::<i32> })
            },
            Err(ScalixError::UnalignedPointer { address, alignment }) => {
                alignment == REQUIRED_MEMORY_ALIGNMENT && address % 64 != 0
            },
            Err(e) => layout_result(width, height, stride_bytes, pixel_format_from_c(format), old(data)@.len() as usize)
                == Err::<(), ScalixError>(e),
        },
{
    let desc = match ImageDescMut::new(width, height, stride_bytes, PixelFormat::from(format), data) {
        Ok(d) => d,
        Err(e) => return Err(e),
    };
    if dma_buf_fd >= 0 {
        Ok(desc.with_dma_buf(dma_buf_fd))
    } else {
        Ok(desc)
    }
}

} // verus!
