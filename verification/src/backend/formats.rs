//! Mapping of pixel formats and filters onto OpenGL and Vulkan API codes.
use vstd::prelude::*;

use crate::types::{FilterMode, PixelFormat, Result, ScalixError};

verus! {

pub const GL_NEAREST: u32 = 0x2600;
pub const GL_LINEAR: u32 = 0x2601;
pub const GL_RGBA: u32 = 0x1908;
pub const GL_RGB: u32 = 0x1907;
pub const GL_BGRA: u32 = 0x80E1;
pub const GL_BGR: u32 = 0x80E0;
pub const GL_RGBA8: u32 = 0x8058;
pub const GL_RGB8: u32 = 0x8051;
pub const GL_UNSIGNED_BYTE: u32 = 0x1401;

/// `VkFormat` codes (Vulkan specification values).
pub const VK_FORMAT_R8_UNORM: i32 = 9;
pub const VK_FORMAT_R8G8_UNORM: i32 = 16;
pub const VK_FORMAT_R8G8B8A8_UNORM: i32 = 37;
pub const VK_FORMAT_B8G8R8A8_UNORM: i32 = 44;
pub const VK_FORMAT_R16G16B16A16_SFLOAT: i32 = 97;
pub const VK_FORMAT_R32G32B32A32_SFLOAT: i32 = 109;

/// `VkFilter` codes.
pub const VK_FILTER_NEAREST: i32 = 0;
pub const VK_FILTER_LINEAR: i32 = 1;

/// OpenGL `(internal format, format, type)` of the formats the GL pipelines upload.
pub open spec fn gl_format_tuple_spec(format: PixelFormat) -> Option<(u32, u32, u32)> {
    match format {
        PixelFormat::Rgba8888 => Some((GL_RGBA8, GL_RGBA, GL_UNSIGNED_BYTE)),
        PixelFormat::Bgra8888 => Some((GL_RGBA8, GL_BGRA, GL_UNSIGNED_BYTE)),
        PixelFormat::Rgb888 => Some((GL_RGB8, GL_RGB, GL_UNSIGNED_BYTE)),
        PixelFormat::Bgr888 => Some((GL_RGB8, GL_BGR, GL_UNSIGNED_BYTE)),
        _ => None,
    }
}

/// The OpenGL `(internal format, format, type)` triple for `format`; only 8-bit RGB(A) layouts
/// are supported.
pub fn get_gl_format_tuple(format: PixelFormat) -> (r: Result<(u32, u32, u32)>)
    ensures
        match gl_format_tuple_spec(format) {
            Some(t) => r == Ok::<(u32, u32, u32), ScalixError>(t),
            None => r == Err::<(u32, u32, u32), ScalixError>(ScalixError::UnsupportedFormat(format)),
        },
{
    match format {
        PixelFormat::Rgba8888 => Ok((GL_RGBA8, GL_RGBA, GL_UNSIGNED_BYTE)),
        PixelFormat::Bgra8888 => Ok((GL_RGBA8, GL_BGRA, GL_UNSIGNED_BYTE)),
        PixelFormat::Rgb888 => Ok((GL_RGB8, GL_RGB, GL_UNSIGNED_BYTE)),
        PixelFormat::Bgr888 => Ok((GL_RGB8, GL_BGR, GL_UNSIGNED_BYTE)),
        other => Err(ScalixError::UnsupportedFormat(other)),
    }
}

/// Vulkan image format holding `format`, and whether 24-bit data must be expanded to 32 bits
/// first (Vulkan images have no packed 24-bit layout).
pub open spec fn vk_format_info_spec(format: PixelFormat) -> Option<(i32, bool)> {
    match format {
        PixelFormat::Rgba8888 => Some((VK_FORMAT_R8G8B8A8_UNORM, false)),
        PixelFormat::Bgra8888 => Some((VK_FORMAT_B8G8R8A8_UNORM, false)),
        PixelFormat::Rgb888 => Some((VK_FORMAT_R8G8B8A8_UNORM, true)),
        PixelFormat::Bgr888 => Some((VK_FORMAT_B8G8R8A8_UNORM, true)),
        PixelFormat::R8 => Some((VK_FORMAT_R8_UNORM, false)),
        PixelFormat::Rg88 => Some((VK_FORMAT_R8G8_UNORM, false)),
        PixelFormat::Rgba16f => Some((VK_FORMAT_R16G16B16A16_SFLOAT, false)),
        PixelFormat::Rgba32f => Some((VK_FORMAT_R32G32B32A32_SFLOAT, false)),
        PixelFormat::Nv12 | PixelFormat::Yuv420p => None,
    }
}

/// The `VkFormat` code for `format` and whether its data needs 24-to-32-bit expansion.
pub fn to_vk_format_info(format: PixelFormat) -> (r: Result<(i32, bool)>)
    ensures
        match vk_format_info_spec(format) {
            Some(t) => r == Ok::<(i32, bool), ScalixError>(t),
            None => r == Err::<(i32, bool), ScalixError>(ScalixError::UnsupportedFormat(format)),
        },
{
    match format {
        PixelFormat::Rgba8888 => Ok((VK_FORMAT_R8G8B8A8_UNORM, false)),
        PixelFormat::Bgra8888 => Ok((VK_FORMAT_B8G8R8A8_UNORM, false)),
        PixelFormat::Rgb888 => Ok((VK_FORMAT_R8G8B8A8_UNORM, true)),
        PixelFormat::Bgr888 => Ok((VK_FORMAT_B8G8R8A8_UNORM, true)),
        PixelFormat::R8 => Ok((VK_FORMAT_R8_UNORM, false)),
        PixelFormat::Rg88 => Ok((VK_FORMAT_R8G8_UNORM, false)),
        PixelFormat::Rgba16f => Ok((VK_FORMAT_R16G16B16A16_SFLOAT, false)),
        PixelFormat::Rgba32f => Ok((VK_FORMAT_R32G32B32A32_SFLOAT, false)),
        PixelFormat::Nv12 | PixelFormat::Yuv420p => Err(ScalixError::UnsupportedFormat(format)),
    }
}

/// The `VkFilter` code for `filter`: nearest sampling for `Nearest`, linear otherwise.
pub fn to_vk_filter(filter: FilterMode) -> (r: i32)
    ensures
        r == if filter is Nearest { VK_FILTER_NEAREST } else { VK_FILTER_LINEAR },
{
    match filter {
        FilterMode::Nearest => VK_FILTER_NEAREST,
        _ => VK_FILTER_LINEAR,
    }
}

/// The OpenGL texture filter for `filter`: nearest sampling for `Nearest`, linear otherwise.
pub fn to_gl_filter(filter: FilterMode) -> (r: u32)
    ensures
        r == if filter is Nearest { GL_NEAREST } else { GL_LINEAR },
{
    match filter {
        FilterMode::Nearest => GL_NEAREST,
        _ => GL_LINEAR,
    }
}

/// Law: every format but the planar ones has a Vulkan image format; exactly the packed 24-bit
/// formats are expanded, each onto the image format of its 32-bit counterpart (RGB888 onto
/// RGBA8888's, BGR888 onto BGRA8888's); and formats that are not expanded get image formats of
/// their own.
pub proof fn lemma_vk_format_table(format: PixelFormat, other: PixelFormat)
    ensures
        vk_format_info_spec(format) is None <==> (format is Nv12 || format is Yuv420p),
        vk_format_info_spec(format) is Some ==> ((vk_format_info_spec(format)->0).1 <==> (
        format is Rgb888 || format is Bgr888)),
        (vk_format_info_spec(PixelFormat::Rgb888)->0).0 == (vk_format_info_spec(
            PixelFormat::Rgba8888,
        )->0).0,
        (vk_format_info_spec(PixelFormat::Bgr888)->0).0 == (vk_format_info_spec(
            PixelFormat::Bgra8888,
        )->0).0,
        vk_format_info_spec(format) is Some && vk_format_info_spec(other) is Some && !(vk_format_info_spec(
            format,
        )->0).1 && !(vk_format_info_spec(other)->0).1 && format != other ==> (vk_format_info_spec(
            format,
        )->0).0 != (vk_format_info_spec(other)->0).0,
{
}

/// Law: the OpenGL pipelines take exactly the 8-bit RGB(A) formats, all as unsigned bytes, with
/// a 32-bit internal format for the four-channel ones and a 24-bit one for the three-channel
/// ones, and a distinct client layout for each.
pub proof fn lemma_gl_format_table(format: PixelFormat, other: PixelFormat)
    ensures
        gl_format_tuple_spec(format) is Some <==> (format is Rgba8888 || format is Bgra8888
            || format is Rgb888 || format is Bgr888),
        gl_format_tuple_spec(format) is Some ==> (gl_format_tuple_spec(format)->0).2 == GL_UNSIGNED_BYTE,
        (format is Rgba8888 || format is Bgra8888) ==> (gl_format_tuple_spec(format)->0).0 == GL_RGBA8,
        (format is Rgb888 || format is Bgr888) ==> (gl_format_tuple_spec(format)->0).0 == GL_RGB8,
        gl_format_tuple_spec(format) is Some && gl_format_tuple_spec(other) is Some && format
            != other ==> (gl_format_tuple_spec(format)->0).1 != (gl_format_tuple_spec(other)->0).1,
{
}

} // verus!
