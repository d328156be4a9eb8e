//! Image geometry, pixel formats, descriptors and the library's error type.
use vstd::prelude::*;

verus! {

/// Required memory alignment (64 bytes: cache line and AVX-512 vector boundary) of image buffers.
pub const REQUIRED_MEMORY_ALIGNMENT: usize = 64;

/// Width and height of an image in pixels.
#[derive(Debug, Clone, Copy, PartialEq, Eq, Hash, Structural)]
pub struct ImageDimensions {
    pub width: u32,
    pub height: u32,
}

impl Default for ImageDimensions {
    fn default() -> (r: Self)
        ensures
            r.width == 0 && r.height == 0,
    {
        ImageDimensions { width: 0, height: 0 }
    }
}

impl ImageDimensions {
    /// True when one of the two extents is zero.
    pub open spec fn spec_is_empty(self) -> bool {
        self.width == 0 || self.height == 0
    }

    pub fn new(width: u32, height: u32) -> (r: Self)
        ensures
            r.width == width,
            r.height == height,
    {
        ImageDimensions { width, height }
    }

    pub fn is_empty(self) -> (r: bool)
        ensures
            r == self.spec_is_empty(),
    {
        self.width == 0 || self.height == 0
    }

    /// The pixel count, when it fits in a `usize`.
    pub fn checked_area(self) -> (r: Option<usize>)
        ensures
            r == (if self.width * self.height <= usize::MAX {
                Some((self.width * self.height) as usize)
            } else {
                None::<usize>
            }),
    {
        (self.width as usize).checked_mul(self.height as usize)
    }

    /// Accepts only even widths and heights (required by 4:2:0 chroma subsampling).
    pub fn validate_even(self) -> (r: Result<()>)
        ensures
            r == (if self.width % 2 == 0 && self.height % 2 == 0 {
                Ok::<(), ScalixError>(())
            } else {
                Err(ScalixError::InvalidDimensions { width: self.width, height: self.height })
            }),
    {
        if self.width % 2 != 0 || self.height % 2 != 0 {
            Err(ScalixError::InvalidDimensions { width: self.width, height: self.height })
        } else {
            Ok(())
        }
    }
}

/// Pixel layouts understood across backends.
#[derive(Debug, Clone, Copy, PartialEq, Eq, Hash, Structural)]
pub enum PixelFormat {
    Rgba8888,
    Bgra8888,
    Rgb888,
    Bgr888,
    R8,
    Rg88,
    Nv12,
    Yuv420p,
    Rgba16f,
    Rgba32f,
}

/// Image scaling filter and interpolation algorithms.
#[derive(Debug, Clone, Copy, PartialEq, Eq, Hash, Structural)]
pub enum FilterMode {
    /// Nearest neighbour sampling.
    Nearest,
    /// Bilinear interpolation.
    Bilinear,
    /// Catmull-Rom bicubic interpolation.
    Bicubic,
    /// Three-lobe Lanczos windowed sinc.
    Lanczos3,
    /// Pixel area relation (box averaging).
    Area,
    /// Copy the overlapping region without interpolation.
    Passthrough,
}

/// Hardware backend providers.
#[derive(Debug, Clone, Copy, PartialEq, Eq, Hash, Structural)]
pub enum BackendType {
    Auto,
    Vulkan,
    OpenGL,
    Npu,
    Hw2d,
    Cpu,
    Passthrough,
    OpenCL,
}

/// Errors reported by the library.
#[derive(Debug, Clone, PartialEq, Eq)]
pub enum ScalixError {
    InvalidDimensions { width: u32, height: u32 },
    InvalidStride { stride: usize, min_stride: usize },
    BufferTooSmall { required: usize, actual: usize },
    NullPointer,
    UnsupportedFormat(PixelFormat),
    BackendUnavailable(BackendType),
    ExecutionFailed(String),
    UnalignedPointer { address: usize, alignment: usize },
    DmaUnavailable(String),
    DmaAllocationFailed(String),
    DmaMapFailed(String),
    DmaSyncFailed(String),
    Timeout,
    ChannelClosed,
}

pub type Result<T> = core::result::Result<T, ScalixError>;

impl PixelFormat {
    /// True for the planar / semi-planar 4:2:0 layouts.
    pub open spec fn is_planar(self) -> bool {
        self is Nv12 || self is Yuv420p
    }

    /// Bytes per pixel of a packed layout; 1 (the luma plane) for planar layouts.
    pub open spec fn unit_bytes(self) -> int {
        match self {
            PixelFormat::Rgba8888 | PixelFormat::Bgra8888 => 4,
            PixelFormat::Rgb888 | PixelFormat::Bgr888 => 3,
            PixelFormat::R8 => 1,
            PixelFormat::Rg88 => 2,
            PixelFormat::Rgba16f => 8,
            PixelFormat::Rgba32f => 16,
            PixelFormat::Nv12 | PixelFormat::Yuv420p => 1,
        }
    }

    /// Bytes per pixel of a packed layout, `None` for planar layouts.
    pub open spec fn spec_bytes_per_pixel(self) -> Option<usize> {
        if self.is_planar() {
            None
        } else {
            Some(self.unit_bytes() as usize)
        }
    }

    /// Smallest row pitch in bytes for `width` pixels (the luma row for planar layouts).
    pub open spec fn min_stride_of(self, width: int) -> int {
        width * self.unit_bytes()
    }

    /// Result of `min_stride`.
    pub open spec fn min_stride_result(self, width: u32) -> Result<usize> {
        if width == 0 {
            Err(ScalixError::InvalidDimensions { width: 0, height: 0 })
        } else if self.min_stride_of(width as int) > usize::MAX {
            Err(ScalixError::InvalidDimensions { width, height: 0 })
        } else {
            Ok(self.min_stride_of(width as int) as usize)
        }
    }

    /// Bytes an image of `dims` with row pitch `stride` occupies: for packed layouts every row
    /// but the last takes a full stride and the last only its pixels; planar 4:2:0 layouts hold a
    /// full-resolution luma plane followed by half as many chroma bytes.
    pub open spec fn required_bytes(self, dims: ImageDimensions, stride: int) -> int {
        if self.is_planar() {
            let y = stride * dims.height;
            y + y / 2
        } else {
            stride * (dims.height - 1) + self.min_stride_of(dims.width as int)
        }
    }

    /// Result of `min_buffer_size_dims`.
    pub open spec fn buffer_size_result(self, dims: ImageDimensions, stride: usize) -> Result<usize> {
        let w = dims.width;
        let h = dims.height;
        if dims.spec_is_empty() {
            Err(ScalixError::InvalidDimensions { width: w, height: h })
        } else if self.min_stride_of(w as int) > usize::MAX {
            Err(ScalixError::InvalidDimensions { width: w, height: 0 })
        } else if stride < self.min_stride_of(w as int) {
            Err(
                ScalixError::InvalidStride {
                    stride,
                    min_stride: self.min_stride_of(w as int) as usize,
                },
            )
        } else if self.is_planar() && (w % 2 != 0 || h % 2 != 0) {
            Err(ScalixError::InvalidDimensions { width: w, height: h })
        } else if self.required_bytes(dims, stride as int) > usize::MAX {
            Err(ScalixError::InvalidDimensions { width: w, height: h })
        } else {
            Ok(self.required_bytes(dims, stride as int) as usize)
        }
    }

    /// Bytes per pixel of packed formats; `None` for NV12 and YUV420p.
    pub fn bytes_per_pixel(self) -> (r: Option<usize>)
        ensures
            r == self.spec_bytes_per_pixel(),
    {
        match self {
            PixelFormat::Rgba8888 | PixelFormat::Bgra8888 => Some(4),
            PixelFormat::Rgb888 | PixelFormat::Bgr888 => Some(3),
            PixelFormat::R8 => Some(1),
            PixelFormat::Rg88 => Some(2),
            PixelFormat::Rgba16f => Some(8),
            PixelFormat::Rgba32f => Some(16),
            PixelFormat::Nv12 | PixelFormat::Yuv420p => None,
        }
    }

    /// Minimum byte stride of a row of `width` pixels (the luma row for planar layouts).
    pub fn min_stride(self, width: u32) -> (r: Result<usize>)
        ensures
            r == self.min_stride_result(width),
    {
        if width == 0 {
            return Err(ScalixError::InvalidDimensions { width: 0, height: 0 });
        }
        match self.bytes_per_pixel() {
            Some(bpp) => {
                assert(self.min_stride_of(width as int) == (width as usize) * bpp);
                match (width as usize).checked_mul(bpp) {
                    Some(s) => Ok(s),
                    None => Err(ScalixError::InvalidDimensions { width, height: 0 }),
                }
            },
            None => Ok(width as usize),
        }
    }

    /// Minimum buffer size for an image of `width` x `height` pixels with row pitch `stride`.
    pub fn min_buffer_size(self, width: u32, height: u32, stride: usize) -> (r: Result<usize>)
        ensures
            r == self.buffer_size_result(ImageDimensions { width, height }, stride),
    {
        self.min_buffer_size_dims(ImageDimensions::new(width, height), stride)
    }

    /// Minimum buffer size for an image of `dims` with row pitch `stride`.
    pub fn min_buffer_size_dims(self, dims: ImageDimensions, stride: usize) -> (r: Result<usize>)
        ensures
            r == self.buffer_size_result(dims, stride),
    {
        if dims.is_empty() {
            return Err(ScalixError::InvalidDimensions { width: dims.width, height: dims.height });
        }
        let min_s = match self.min_stride(dims.width) {
            Ok(s) => s,
            Err(e) => return Err(e),
        };
        if stride < min_s {
            return Err(ScalixError::InvalidStride { stride, min_stride: min_s });
        }
        match self {
            PixelFormat::Nv12 | PixelFormat::Yuv420p => self.min_planar_size(dims, stride),
            _ => self.min_packed_size(dims, stride, min_s),
        }
    }

    /// Size of a 4:2:0 image: luma plane plus half as many chroma bytes.
    fn min_planar_size(self, dims: ImageDimensions, stride: usize) -> (r: Result<usize>)
        requires
            self.is_planar(),
            !dims.spec_is_empty(),
            stride >= self.min_stride_of(dims.width as int),
        ensures
            r == self.buffer_size_result(dims, stride),
    {
        if let Err(e) = dims.validate_even() {
            return Err(e);
        }
        let y_size = match stride.checked_mul(dims.height as usize) {
            Some(y) => y,
            None => {
                assert(stride * dims.height + (stride * dims.height) / 2 > usize::MAX)
                    by (nonlinear_arith)
                    requires stride * dims.height > usize::MAX;
                return Err(
                    ScalixError::InvalidDimensions { width: dims.width, height: dims.height },
                );
            },
        };
        let uv_size = y_size / 2;
        match y_size.checked_add(uv_size) {
            Some(s) => Ok(s),
            None => Err(ScalixError::InvalidDimensions { width: dims.width, height: dims.height }),
        }
    }

    /// Size of a packed image: full strides for every row but the last.
    fn min_packed_size(self, dims: ImageDimensions, stride: usize, min_s: usize) -> (r: Result<
        usize,
    >)
        requires
            !self.is_planar(),
            !dims.spec_is_empty(),
            min_s == self.min_stride_of(dims.width as int),
            stride >= min_s,
        ensures
            r == self.buffer_size_result(dims, stride),
    {
        let rows_before_last = (dims.height as usize).saturating_sub(1);
        let preceding = match stride.checked_mul(rows_before_last) {
            Some(p) => p,
            None => {
                return Err(
                    ScalixError::InvalidDimensions { width: dims.width, height: dims.height },
                )
            },
        };
        match preceding.checked_add(min_s) {
            Some(s) => Ok(s),
            None => Err(ScalixError::InvalidDimensions { width: dims.width, height: dims.height }),
        }
    }
}

/// Dimensions, row pitch and pixel format of an image.
#[derive(Debug, Clone, Copy, PartialEq, Eq, Hash, Structural)]
pub struct ImageGeometry {
    pub dimensions: ImageDimensions,
    pub stride: usize,
    pub format: PixelFormat,
}

impl ImageGeometry {
    /// Geometry with the tightest row pitch for `format`.
    pub fn new(dimensions: ImageDimensions, format: PixelFormat) -> (r: Result<Self>)
        ensures
            match format.min_stride_result(dimensions.width) {
                Ok(s) => r == Ok::<Self, ScalixError>(
                    ImageGeometry { dimensions, stride: s, format },
                ),
                Err(e) => r == Err::<Self, ScalixError>(e),
            },
    {
        let stride = match format.min_stride(dimensions.width) {
            Ok(s) => s,
            Err(e) => return Err(e),
        };
        Ok(ImageGeometry { dimensions, stride, format })
    }

    /// Minimum buffer size this geometry needs.
    pub fn min_buffer_size(&self) -> (r: Result<usize>)
        ensures
            r == self.format.buffer_size_result(self.dimensions, self.stride),
    {
        self.format.min_buffer_size_dims(self.dimensions, self.stride)
    }
}

} // verus!
