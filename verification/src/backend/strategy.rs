//! Per-backend execution strategies, their options, and how a backend picks a pipeline.
use vstd::prelude::*;

use crate::options::ResizeOptions;
use crate::types::{FilterMode, PixelFormat};

verus! {

/// Vulkan execution paths.
#[derive(Debug, Clone, Copy, PartialEq, Eq, Hash, Structural)]
pub enum VulkanStrategy {
    /// Let the backend choose.
    Auto,
    /// Fixed-function `vkCmdBlitImage` scaling.
    Blit,
    /// Offscreen raster pipeline sampling the source.
    Raster,
    /// Hierarchical mip pyramid downscaling.
    LodPyramid,
    /// Compute shader kernels.
    Compute,
}

impl Default for VulkanStrategy {
    fn default() -> (r: Self)
        ensures
            r == VulkanStrategy::Auto,
    {
        VulkanStrategy::Auto
    }
}

/// Vulkan-specific options.
#[derive(Debug, Clone, Copy, PartialEq, Eq, Hash, Structural)]
pub struct VulkanOptions {
    pub strategy: VulkanStrategy,
    /// Cap on mip levels for LoD downscaling; 0 means automatic.
    pub max_mip_levels: u32,
}

impl Default for VulkanOptions {
    fn default() -> (r: Self)
        ensures
            r == (VulkanOptions { strategy: VulkanStrategy::Auto, max_mip_levels: 0 }),
    {
        VulkanOptions { strategy: VulkanStrategy::Auto, max_mip_levels: 0 }
    }
}

/// OpenGL / GLES execution paths.
#[derive(Debug, Clone, Copy, PartialEq, Eq, Hash, Structural)]
pub enum GlStrategy {
    Auto,
    Blit,
    Raster,
    LodPyramid,
    Compute,
}

impl Default for GlStrategy {
    fn default() -> (r: Self)
        ensures
            r == GlStrategy::Auto,
    {
        GlStrategy::Auto
    }
}

/// OpenGL-specific options.
#[derive(Debug, Clone, Copy, PartialEq, Eq, Hash, Structural)]
pub struct GlOptions {
    pub strategy: GlStrategy,
    /// Cap on downscale passes for LoD downscaling; 0 means automatic.
    pub max_mip_levels: u32,
}

impl Default for GlOptions {
    fn default() -> (r: Self)
        ensures
            r == (GlOptions { strategy: GlStrategy::Auto, max_mip_levels: 0 }),
    {
        GlOptions { strategy: GlStrategy::Auto, max_mip_levels: 0 }
    }
}

/// OpenCL execution paths.
#[derive(Debug, Clone, Copy, PartialEq, Eq, Hash, Structural)]
pub enum OpenClStrategy {
    Auto,
    Compute,
}

impl Default for OpenClStrategy {
    fn default() -> (r: Self)
        ensures
            r == OpenClStrategy::Auto,
    {
        OpenClStrategy::Auto
    }
}

/// OpenCL-specific options.
#[derive(Debug, Clone, Copy, PartialEq, Eq, Hash, Structural)]
pub struct OpenClOptions {
    pub strategy: OpenClStrategy,
}

impl Default for OpenClOptions {
    fn default() -> (r: Self)
        ensures
            r == (OpenClOptions { strategy: OpenClStrategy::Auto }),
    {
        OpenClOptions { strategy: OpenClStrategy::Auto }
    }
}

/// The pipeline a backend runs for one resize request.
#[derive(Debug, Clone, Copy, PartialEq, Eq, Hash, Structural)]
pub enum PipelineRoute {
    /// Plain memory transfer, no interpolation.
    Passthrough,
    Blit,
    Raster,
    LodPyramid,
    Compute,
}

/// True for the filters that need more than a 2x2 neighbourhood.
pub open spec fn is_high_order(filter: FilterMode) -> bool {
    filter is Bicubic || filter is Lanczos3 || filter is Area
}

/// True for packed 24-bit layouts.
pub open spec fn is_packed_rgb24(format: PixelFormat) -> bool {
    format is Rgb888 || format is Bgr888
}

/// True for packed 32-bit RGBA layouts.
pub open spec fn is_packed_rgba32(format: PixelFormat) -> bool {
    format is Rgba8888 || format is Bgra8888
}

/// The pipeline the Vulkan backend chooses on its own: compute for 24-bit data and for
/// high-order filters on 32-bit RGBA, the hardware blitter otherwise.
pub open spec fn vulkan_auto_route(src: PixelFormat, dst: PixelFormat, filter: FilterMode) -> PipelineRoute {
    if src == dst && is_packed_rgb24(src) {
        PipelineRoute::Compute
    } else if src == dst && is_packed_rgba32(src) && is_high_order(filter) {
        PipelineRoute::Compute
    } else {
        PipelineRoute::Blit
    }
}

/// The pipeline the Vulkan backend runs for a request.
pub open spec fn vulkan_route_spec(
    src: PixelFormat,
    dst: PixelFormat,
    filter: FilterMode,
    strategy: VulkanStrategy,
) -> PipelineRoute {
    if filter is Passthrough {
        PipelineRoute::Passthrough
    } else {
        match strategy {
            VulkanStrategy::Auto => vulkan_auto_route(src, dst, filter),
            VulkanStrategy::Blit => PipelineRoute::Blit,
            VulkanStrategy::Raster => PipelineRoute::Raster,
            VulkanStrategy::LodPyramid => PipelineRoute::LodPyramid,
            VulkanStrategy::Compute => PipelineRoute::Compute,
        }
    }
}

/// The pipeline the OpenGL backend runs for a request: rasterised shaders for high-order filters
/// unless a strategy is forced, framebuffer blits otherwise.
pub open spec fn gl_route_spec(filter: FilterMode, strategy: GlStrategy) -> PipelineRoute {
    if filter is Passthrough {
        PipelineRoute::Passthrough
    } else {
        match strategy {
            GlStrategy::Auto => if is_high_order(filter) {
                PipelineRoute::Raster
            } else {
                PipelineRoute::Blit
            },
            GlStrategy::Blit => PipelineRoute::Blit,
            GlStrategy::Raster => PipelineRoute::Raster,
            GlStrategy::LodPyramid => PipelineRoute::LodPyramid,
            GlStrategy::Compute => PipelineRoute::Compute,
        }
    }
}

/// Chooses the Vulkan pipeline for converting `src_format` into `dst_format` under `options`.
pub fn select_vulkan_route(src_format: PixelFormat, dst_format: PixelFormat, options: &ResizeOptions) -> (r:
    PipelineRoute)
    ensures
        r == vulkan_route_spec(
            src_format,
            dst_format,
            options.filter,
            options.spec_vulkan_options().strategy,
        ),
{
    if options.filter == FilterMode::Passthrough {
        return PipelineRoute::Passthrough;
    }
    let vk_opts = options.vulkan_options();
    match vk_opts.strategy {
        VulkanStrategy::Auto => {
            let same = src_format == dst_format;
            let rgb24 = matches!(src_format, PixelFormat::Rgb888 | PixelFormat::Bgr888);
            let rgba32 = matches!(src_format, PixelFormat::Rgba8888 | PixelFormat::Bgra8888);
            let high = matches!(options.filter, FilterMode::Bicubic | FilterMode::Lanczos3 | FilterMode::Area);
            if same && rgb24 {
                PipelineRoute::Compute
            } else if same && rgba32 && high {
                PipelineRoute::Compute
            } else {
                PipelineRoute::Blit
            }
        },
        VulkanStrategy::Blit => PipelineRoute::Blit,
        VulkanStrategy::Raster => PipelineRoute::Raster,
        VulkanStrategy::LodPyramid => PipelineRoute::LodPyramid,
        VulkanStrategy::Compute => PipelineRoute::Compute,
    }
}

/// Chooses the OpenGL pipeline for a request under `options`.
pub fn select_gl_route(options: &ResizeOptions) -> (r: PipelineRoute)
    ensures
        r == gl_route_spec(options.filter, options.spec_gl_options().strategy),
{
    if options.filter == FilterMode::Passthrough {
        return PipelineRoute::Passthrough;
    }
    let gl_opts = options.gl_options();
    match gl_opts.strategy {
        GlStrategy::Auto => {
            if matches!(options.filter, FilterMode::Bicubic | FilterMode::Lanczos3 | FilterMode::Area) {
                PipelineRoute::Raster
            } else {
                PipelineRoute::Blit
            }
        },
        GlStrategy::Blit => PipelineRoute::Blit,
        GlStrategy::Raster => PipelineRoute::Raster,
        GlStrategy::LodPyramid => PipelineRoute::LodPyramid,
        GlStrategy::Compute => PipelineRoute::Compute,
    }
}

/// Chooses the OpenCL pipeline: passthrough transfers bypass the kernels.
pub fn select_opencl_route(options: &ResizeOptions) -> (r: PipelineRoute)
    ensures
        r == (if options.filter is Passthrough {
            PipelineRoute::Passthrough
        } else {
            PipelineRoute::Compute
        }),
{
    if options.filter == FilterMode::Passthrough {
        PipelineRoute::Passthrough
    } else {
        PipelineRoute::Compute
    }
}

/// Law (automatic Vulkan routing): a passthrough filter bypasses every pipeline; otherwise a
/// request whose two images share a packed 24-bit format (RGB888 or BGR888) runs the fused
/// compute pass whatever the filter, one whose images share a packed 32-bit RGBA format (RGBA8888
/// or BGRA8888) runs compute for the bicubic, Lanczos-3 and area filters, and every other request
/// runs the fixed-function blit.
pub proof fn lemma_vulkan_auto_route_table(src: PixelFormat, dst: PixelFormat, filter: FilterMode)
    ensures
        filter is Passthrough ==> vulkan_route_spec(src, dst, filter, VulkanStrategy::Auto)
            == PipelineRoute::Passthrough,
        !(filter is Passthrough) && src == dst && (src is Rgb888 || src is Bgr888)
            ==> vulkan_route_spec(src, dst, filter, VulkanStrategy::Auto) == PipelineRoute::Compute,
        !(filter is Passthrough) && src == dst && (src is Rgba8888 || src is Bgra8888) && (
        filter is Bicubic || filter is Lanczos3 || filter is Area) ==> vulkan_route_spec(
            src,
            dst,
            filter,
            VulkanStrategy::Auto,
        ) == PipelineRoute::Compute,
        !(filter is Passthrough) && !(src == dst && (src is Rgb888 || src is Bgr888)) && !(src == dst
            && (src is Rgba8888 || src is Bgra8888) && (filter is Bicubic || filter is Lanczos3
            || filter is Area)) ==> vulkan_route_spec(src, dst, filter, VulkanStrategy::Auto)
            == PipelineRoute::Blit,
{
}

/// Law: when the Vulkan backend picks the compute pipeline on its own, both images share one
/// packed 24-bit or 32-bit RGBA format, which is what the compute pipeline accepts.
pub proof fn lemma_auto_compute_route_has_compute_format(src: PixelFormat, dst: PixelFormat, filter: FilterMode)
    requires
        vulkan_route_spec(src, dst, filter, VulkanStrategy::Auto) == PipelineRoute::Compute,
    ensures
        src == dst,
        is_packed_rgb24(src) || is_packed_rgba32(src),
{
}

/// Law (automatic OpenGL routing): a passthrough filter bypasses every pipeline; the bicubic,
/// Lanczos-3 and area filters run rasterised shaders; nearest and bilinear run the framebuffer
/// blit.
pub proof fn lemma_gl_auto_route_table(filter: FilterMode)
    ensures
        filter is Passthrough ==> gl_route_spec(filter, GlStrategy::Auto) == PipelineRoute::Passthrough,
        (filter is Bicubic || filter is Lanczos3 || filter is Area) ==> gl_route_spec(
            filter,
            GlStrategy::Auto,
        ) == PipelineRoute::Raster,
        (filter is Nearest || filter is Bilinear) ==> gl_route_spec(filter, GlStrategy::Auto)
            == PipelineRoute::Blit,
{
}

/// Law: a strategy other than the automatic one is always honoured, whatever the formats,
/// except that a passthrough filter bypasses every pipeline.
pub proof fn lemma_forced_strategy_is_honoured(src: PixelFormat, dst: PixelFormat, filter: FilterMode)
    requires
        !(filter is Passthrough),
    ensures
        vulkan_route_spec(src, dst, filter, VulkanStrategy::Blit) == PipelineRoute::Blit,
        vulkan_route_spec(src, dst, filter, VulkanStrategy::Raster) == PipelineRoute::Raster,
        vulkan_route_spec(src, dst, filter, VulkanStrategy::LodPyramid) == PipelineRoute::LodPyramid,
        vulkan_route_spec(src, dst, filter, VulkanStrategy::Compute) == PipelineRoute::Compute,
        gl_route_spec(filter, GlStrategy::Blit) == PipelineRoute::Blit,
        gl_route_spec(filter, GlStrategy::Raster) == PipelineRoute::Raster,
        gl_route_spec(filter, GlStrategy::LodPyramid) == PipelineRoute::LodPyramid,
        gl_route_spec(filter, GlStrategy::Compute) == PipelineRoute::Compute,
{
}

} // verus!
