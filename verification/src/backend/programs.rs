//! Which GPU program serves a request: the OpenGL context versions tried, shader headers per GL
//! flavour, the raster fragment program per filter, and the OpenCL kernel entry point per filter.
use vstd::prelude::*;

use crate::engine::collect_chars;
use crate::types::FilterMode;

verus! {

/// Header of the raster shaders: GLSL ES 3.00 with high float precision on GLES, GLSL 3.30
/// core on desktop GL.
pub fn gl_shader_header(is_gles: bool) -> (r: &'static str)
    ensures
        r@ == (if is_gles {
            "#version 300 es\nprecision highp float;\n"@
        } else {
            "#version 330 core\n"@
        }),
{
    if is_gles {
        "#version 300 es\nprecision highp float;\n"
    } else {
        "#version 330 core\n"
    }
}

/// Header of the compute shaders: GLSL ES 3.10 with high float precision on GLES, GLSL 4.30
/// core on desktop GL.
pub fn gl_compute_shader_header(is_gles: bool) -> (r: &'static str)
    ensures
        r@ == (if is_gles {
            "#version 310 es\nprecision highp float;\n"@
        } else {
            "#version 430 core\n"@
        }),
{
    if is_gles {
        "#version 310 es\nprecision highp float;\n"
    } else {
        "#version 430 core\n"
    }
}

/// Fragment programs of the raster pipeline.
#[derive(Debug, Clone, Copy, PartialEq, Eq, Structural)]
pub enum RasterProgram {
    Bilinear,
    Bicubic,
    Area,
}

/// Fragment program that draws `filter`.
pub open spec fn raster_program_spec(filter: FilterMode) -> RasterProgram {
    match filter {
        FilterMode::Area => RasterProgram::Area,
        FilterMode::Bicubic | FilterMode::Lanczos3 => RasterProgram::Bicubic,
        _ => RasterProgram::Bilinear,
    }
}

/// Picks the raster fragment program for `filter`: area averaging for `Area`, the bicubic
/// program for `Bicubic` and `Lanczos3`, and the bilinear program for every other filter.
pub fn raster_program_for(filter: FilterMode) -> (r: RasterProgram)
    ensures
        r == raster_program_spec(filter),
{
    match filter {
        FilterMode::Area => RasterProgram::Area,
        FilterMode::Bicubic | FilterMode::Lanczos3 => RasterProgram::Bicubic,
        _ => RasterProgram::Bilinear,
    }
}

/// Entry point of the OpenCL kernel that resizes with `filter`.
pub open spec fn opencl_kernel_name_spec(filter: FilterMode) -> Seq<char> {
    match filter {
        FilterMode::Nearest | FilterMode::Passthrough => "resize_nearest"@,
        FilterMode::Bilinear => "resize_bilinear"@,
        FilterMode::Bicubic => "resize_bicubic"@,
        FilterMode::Lanczos3 => "resize_lanczos3"@,
        FilterMode::Area => "resize_area"@,
    }
}

/// Name of the OpenCL kernel built for `filter` (passthrough reuses the nearest kernel).
pub fn opencl_kernel_name(filter: FilterMode) -> (r: &'static str)
    ensures
        r@ == opencl_kernel_name_spec(filter),
{
    match filter {
        FilterMode::Nearest => "resize_nearest",
        FilterMode::Bilinear => "resize_bilinear",
        FilterMode::Bicubic => "resize_bicubic",
        FilterMode::Lanczos3 => "resize_lanczos3",
        FilterMode::Area => "resize_area",
        FilterMode::Passthrough => "resize_nearest",
    }
}

/// Whether `s` contains the two characters "ES" in a row.
pub open spec fn contains_es(s: Seq<char>) -> bool {
    exists|i: int| 0 <= i && i + 1 < s.len() && #[trigger] s[i] == 'E' && s[i + 1] == 'S'
}

/// Whether a `GL_VERSION` string describes an OpenGL ES context: it mentions "ES" (as in
/// "OpenGL ES 3.2").
pub fn gl_version_is_gles(version: &str) -> (r: bool)
    ensures
        r == contains_es(version@),
{
    let v = collect_chars(version);
    let n = v.len();
    let mut i: usize = 0;
    while i < n && i + 1 < n
        invariant
            n == v@.len(),
            i <= n,
            v@ == version@,
            forall|j: int| 0 <= j < i && j + 1 < n ==> !(#[trigger] v@[j] == 'E' && v@[j + 1] == 'S'),
        decreases n - i,
    {
        if v[i] == 'E' && v[i + 1] == 'S' {
            return true;
        }
        i = i + 1;
    }
    false
}

/// OpenGL context versions tried in turn when bringing up the OpenGL backend.
#[derive(Debug, Clone, Copy, PartialEq, Eq, Structural)]
pub enum GlContextAttempt {
    /// Desktop OpenGL 4.3 core.
    DesktopGl43,
    /// Desktop OpenGL 3.3 core.
    DesktopGl33,
    /// OpenGL ES 3.1.
    Gles31,
    /// OpenGL ES 3.0.
    Gles30,
    /// OpenGL ES with the driver's default version.
    GlesDefault,
}

/// Context to try after `failed` (`None` at the start): desktop GL 4.3, then 3.3, then GLES 3.1,
/// 3.0 and the default GLES version; `None` once every attempt failed.
pub open spec fn next_gl_context_attempt_spec(failed: Option<GlContextAttempt>) -> Option<GlContextAttempt> {
    match failed {
        None => Some(GlContextAttempt::DesktopGl43),
        Some(GlContextAttempt::DesktopGl43) => Some(GlContextAttempt::DesktopGl33),
        Some(GlContextAttempt::DesktopGl33) => Some(GlContextAttempt::Gles31),
        Some(GlContextAttempt::Gles31) => Some(GlContextAttempt::Gles30),
        Some(GlContextAttempt::Gles30) => Some(GlContextAttempt::GlesDefault),
        Some(GlContextAttempt::GlesDefault) => None,
    }
}

/// Decides the next OpenGL context version to request.
pub fn next_gl_context_attempt(failed: Option<GlContextAttempt>) -> (r: Option<GlContextAttempt>)
    ensures
        r == next_gl_context_attempt_spec(failed),
{
    match failed {
        None => Some(GlContextAttempt::DesktopGl43),
        Some(GlContextAttempt::DesktopGl43) => Some(GlContextAttempt::DesktopGl33),
        Some(GlContextAttempt::DesktopGl33) => Some(GlContextAttempt::Gles31),
        Some(GlContextAttempt::Gles31) => Some(GlContextAttempt::Gles30),
        Some(GlContextAttempt::Gles30) => Some(GlContextAttempt::GlesDefault),
        Some(GlContextAttempt::GlesDefault) => None,
    }
}

/// Whether an attempt requests an OpenGL ES context (the EGL API must then be switched to ES).
pub fn uses_gles_api(attempt: GlContextAttempt) -> (r: bool)
    ensures
        r == !(attempt is DesktopGl43 || attempt is DesktopGl33),
{
    !matches!(attempt, GlContextAttempt::DesktopGl43 | GlContextAttempt::DesktopGl33)
}

/// Law: OpenGL context creation tries desktop OpenGL 4.3, then 3.3, then OpenGL ES 3.1, 3.0 and
/// the driver's default ES version, each once and in that order, and stops after the last.
pub proof fn lemma_gl_context_attempt_order()
    ensures
        next_gl_context_attempt_spec(None) == Some(GlContextAttempt::DesktopGl43),
        next_gl_context_attempt_spec(Some(GlContextAttempt::DesktopGl43)) == Some(
            GlContextAttempt::DesktopGl33,
        ),
        next_gl_context_attempt_spec(Some(GlContextAttempt::DesktopGl33)) == Some(
            GlContextAttempt::Gles31,
        ),
        next_gl_context_attempt_spec(Some(GlContextAttempt::Gles31)) == Some(GlContextAttempt::Gles30),
        next_gl_context_attempt_spec(Some(GlContextAttempt::Gles30)) == Some(
            GlContextAttempt::GlesDefault,
        ),
        next_gl_context_attempt_spec(Some(GlContextAttempt::GlesDefault)) is None,
{
}

/// Law: each filter is drawn by the program that implements it: area averaging for `Area`, the
/// bicubic program for `Bicubic` and `Lanczos3`, bilinear sampling for the others.
pub proof fn lemma_raster_program_table(filter: FilterMode)
    ensures
        filter is Area <==> raster_program_spec(filter) == RasterProgram::Area,
        (filter is Bicubic || filter is Lanczos3) <==> raster_program_spec(filter)
            == RasterProgram::Bicubic,
        (filter is Nearest || filter is Bilinear || filter is Passthrough) <==> raster_program_spec(
            filter,
        ) == RasterProgram::Bilinear,
{
}

} // verus!
