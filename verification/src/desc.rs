//! Borrowed image descriptors for resize sources and destinations.
use vstd::prelude::*;

use crate::types::{ImageDimensions, ImageGeometry, PixelFormat, Result, ScalixError, REQUIRED_MEMORY_ALIGNMENT};

verus! {

/// Outcome of checking a buffer of `len` bytes against an image layout, the address aside.
pub open spec fn layout_result(
    width: u32,
    height: u32,
    stride: usize,
    format: PixelFormat,
    len: usize,
) -> Result<()> {
    match format.buffer_size_result(ImageDimensions { width, height }, stride) {
        Err(e) => Err(e),
        Ok(min) => if len < min {
            Err(ScalixError::BufferTooSmall { required: min, actual: len })
        } else {
            Ok(())
        },
    }
}

/// Outcome of checking a buffer at `address` of `len` bytes against an image layout.
pub open spec fn buffer_check_result(
    width: u32,
    height: u32,
    stride: usize,
    format: PixelFormat,
    address: usize,
    len: usize,
) -> Result<()> {
    if address % REQUIRED_MEMORY_ALIGNMENT != 0 {
        Err(ScalixError::UnalignedPointer { address, alignment: REQUIRED_MEMORY_ALIGNMENT })
    } else {
        layout_result(width, height, stride, format, len)
    }
}

/// Whether `r` reports an unaligned buffer.
pub open spec fn is_unaligned_error<T>(r: Result<T>) -> bool {
    r matches Err(ScalixError::UnalignedPointer { .. })
}

/// What a descriptor constructor's result says of the buffer check: `Ok(())` when it accepted
/// the buffer, its error otherwise.
pub open spec fn check_outcome<T>(r: Result<T>) -> Result<()> {
    match r {
        Ok(_) => Ok(()),
        Err(e) => Err(e),
    }
}

/// Whether `outcome` is a possible result of checking a buffer of `len` bytes against the
/// layout: an unaligned-pointer error naming a misaligned address, or else the layout check's
/// own outcome.
pub open spec fn image_check_outcome(
    width: u32,
    height: u32,
    stride: usize,
    format: PixelFormat,
    len: usize,
    outcome: Result<()>,
) -> bool {
    match outcome {
        Err(ScalixError::UnalignedPointer { address, alignment }) => alignment
            == REQUIRED_MEMORY_ALIGNMENT && address % REQUIRED_MEMORY_ALIGNMENT != 0,
        _ => outcome == layout_result(width, height, stride, format, len),
    }
}

/// Law: checks of one layout on buffers of one length agree, except where one of them reports
/// an unaligned address. This is what `ImageDesc::new`, `ImageDesc::from_geometry`,
/// `ImageDescMut::new` and `ImageDescMut::from_geometry` have in common: each states
/// `image_check_outcome` of its result, so any two of them on the same layout give the same
/// outcome unless the buffer's address is reported as unaligned.
pub proof fn lemma_image_checks_agree(
    width: u32,
    height: u32,
    stride: usize,
    format: PixelFormat,
    len: usize,
    first: Result<()>,
    second: Result<()>,
)
    requires
        image_check_outcome(width, height, stride, format, len, first),
        image_check_outcome(width, height, stride, format, len, second),
    ensures
        !is_unaligned_error(first) && !is_unaligned_error(second) ==> first == second,
        first is Ok ==> second is Ok || is_unaligned_error(second),
{
}

/// Address of the first byte of `data`.
///
/// Calls `<[u8]>::as_ptr` and converts the pointer to an integer. Where an allocation lands is up
/// to the allocator; the one claim is that a slice's bytes do not wrap around the end of the
/// address space (std documents this of every slice), so the address plus the length fits in a
/// `usize`.
#[verifier::external_body]
pub(crate) fn slice_address(data: &[u8]) -> (r: usize)
    ensures
        r + data@.len() <= usize::MAX,
{
    data.as_ptr() as usize
}

/// Checks that a buffer at `address` holding `len` bytes is aligned and large enough for an
/// image of the given layout.
pub fn check_image_buffer(
    width: u32,
    height: u32,
    stride: usize,
    format: PixelFormat,
    address: usize,
    len: usize,
) -> (r: Result<()>)
    ensures
        r == buffer_check_result(width, height, stride, format, address, len),
{
    if address % REQUIRED_MEMORY_ALIGNMENT != 0 {
        return Err(
            ScalixError::UnalignedPointer { address, alignment: REQUIRED_MEMORY_ALIGNMENT },
        );
    }
    let min_size = match format.min_buffer_size(width, height, stride) {
        Ok(m) => m,
        Err(e) => return Err(e),
    };
    if len < min_size {
        return Err(ScalixError::BufferTooSmall { required: min_size, actual: len });
    }
    Ok(())
}

/// Read-only image descriptor for resize sources.
#[derive(Debug, Clone)]
pub struct ImageDesc<'a> {
    pub width: u32,
    pub height: u32,
    pub stride: usize,
    pub format: PixelFormat,
    pub data: &'a [u8],
    pub dma_buf_fd: Option<i32>,
}

impl<'a> ImageDesc<'a> {
    pub open spec fn spec_dimensions(&self) -> ImageDimensions {
        ImageDimensions { width: self.width, height: self.height }
    }

    /// The descriptor describes its buffer: the layout is valid and the buffer large enough.
    pub open spec fn spec_layout_ok(&self) -> bool {
        layout_result(self.width, self.height, self.stride, self.format, self.data@.len() as usize) is Ok
    }

    /// Whether the layout is valid and the buffer large enough for it (the address aside).
    pub fn is_consistent(&self) -> (r: bool)
        ensures
            r == self.spec_layout_ok(),
    {
        match self.format.min_buffer_size(self.width, self.height, self.stride) {
            Ok(min) => self.data.len() >= min,
            Err(_) => false,
        }
    }

    /// Validates `data` (64-byte aligned, large enough) and wraps it.
    pub fn new(width: u32, height: u32, stride: usize, format: PixelFormat, data: &'a [u8]) -> (r:
        Result<Self>)
        ensures
            image_check_outcome(width, height, stride, format, data@.len() as usize, check_outcome(r)),
            match r {
                Ok(d) => {
                    &&& layout_result(width, height, stride, format, data@.len() as usize) is Ok
                    &&& d.width == width && d.height == height && d.stride == stride
                    &&& d.format == format && d.data@ == data@ && d.dma_buf_fd is None
                },
                Err(ScalixError::UnalignedPointer { address, alignment }) => {
                    alignment == REQUIRED_MEMORY_ALIGNMENT && address % 64 != 0
                },
                Err(e) => layout_result(width, height, stride, format, data@.len() as usize)
                    == Err::<(), ScalixError>(e),
            },
    {
        let addr = slice_address(data);
        match check_image_buffer(width, height, stride, format, addr, data.len()) {
            Ok(()) => Ok(ImageDesc { width, height, stride, format, data, dma_buf_fd: None }),
            Err(e) => Err(e),
        }
    }

    /// Validates `data` against `geom` and wraps it.
    pub fn from_geometry(geom: ImageGeometry, data: &'a [u8]) -> (r: Result<Self>)
        ensures
            image_check_outcome(
                geom.dimensions.width,
                geom.dimensions.height,
                geom.stride,
                geom.format,
                data@.len() as usize,
                check_outcome(r),
            ),
            match r {
                Ok(d) => {
                    &&& layout_result(
                        geom.dimensions.width,
                        geom.dimensions.height,
                        geom.stride,
                        geom.format,
                        data@.len() as usize,
                    ) is Ok
                    &&& d.spec_dimensions() == geom.dimensions && d.stride == geom.stride
                    &&& d.format == geom.format && d.data@ == data@ && d.dma_buf_fd is None
                },
                Err(ScalixError::UnalignedPointer { address, alignment }) => {
                    alignment == REQUIRED_MEMORY_ALIGNMENT && address % 64 != 0
                },
                Err(e) => layout_result(
                    geom.dimensions.width,
                    geom.dimensions.height,
                    geom.stride,
                    geom.format,
                    data@.len() as usize,
                ) == Err::<(), ScalixError>(e),
            },
    {
        Self::new(geom.dimensions.width, geom.dimensions.height, geom.stride, geom.format, data)
    }

    pub fn dimensions(&self) -> (r: ImageDimensions)
        ensures
            r == self.spec_dimensions(),
    {
        ImageDimensions::new(self.width, self.height)
    }

    /// Marks the image as backed by the DMA-BUF file descriptor `fd`.
    pub fn with_dma_buf(self, fd: i32) -> (r: Self)
        ensures
            r == (ImageDesc { dma_buf_fd: Some(fd), ..self }),
    {
        let mut s = self;
        s.dma_buf_fd = Some(fd);
        s
    }
}

/// Mutable image descriptor for resize destinations.
#[derive(Debug)]
pub struct ImageDescMut<'a> {
    pub width: u32,
    pub height: u32,
    pub stride: usize,
    pub format: PixelFormat,
    pub data: &'a mut [u8],
    pub dma_buf_fd: Option<i32>,
}

impl<'a> ImageDescMut<'a> {
    pub open spec fn spec_dimensions(&self) -> ImageDimensions {
        ImageDimensions { width: self.width, height: self.height }
    }

    /// The descriptor describes its buffer: the layout is valid and the buffer large enough.
    pub open spec fn spec_layout_ok(&self) -> bool {
        layout_result(self.width, self.height, self.stride, self.format, self.data@.len() as usize) is Ok
    }

    /// Whether the layout is valid and the buffer large enough for it (the address aside).
    pub fn is_consistent(&self) -> (r: bool)
        ensures
            r == self.spec_layout_ok(),
    {
        match self.format.min_buffer_size(self.width, self.height, self.stride) {
            Ok(min) => self.data.len() >= min,
            Err(_) => false,
        }
    }

    /// Validates `data` (64-byte aligned, large enough) and wraps it.
    pub fn new(width: u32, height: u32, stride: usize, format: PixelFormat, data: &'a mut [u8]) -> (r:
        Result<Self>)
        ensures
            image_check_outcome(
                width,
                height,
                stride,
                format,
                old(data)@.len() as usize,
                check_outcome(r),
            ),
            match r {
                Ok(d) => {
                    &&& layout_result(width, height, stride, format, old(data)@.len() as usize) is Ok
                    &&& d.width == width && d.height == height && d.stride == stride
                    &&& d.format == format && d.dma_buf_fd is None
                    &&& d.data@ == old(data)@
                    &&& final(d.data)@ == final(data)@
                },
                Err(ScalixError::UnalignedPointer { address, alignment }) => {
                    &&& alignment == REQUIRED_MEMORY_ALIGNMENT && address % 64 != 0
                    &&& final(data)@ == old(data)@
                },
                Err(e) => {
                    &&& layout_result(width, height, stride, format, old(data)@.len() as usize)
                        == Err::<(), ScalixError>(e)
                    &&& final(data)@ == old(data)@
                },
            },
    {
        let addr = slice_address(data);
        match check_image_buffer(width, height, stride, format, addr, data.len()) {
            Ok(()) => Ok(ImageDescMut { width, height, stride, format, data, dma_buf_fd: None }),
            Err(e) => Err(e),
        }
    }

    /// Validates `data` against `geom` and wraps it.
    pub fn from_geometry(geom: ImageGeometry, data: &'a mut [u8]) -> (r: Result<Self>)
        ensures
            image_check_outcome(
                geom.dimensions.width,
                geom.dimensions.height,
                geom.stride,
                geom.format,
                old(data)@.len() as usize,
                check_outcome(r),
            ),
            match r {
                Ok(d) => {
                    &&& layout_result(
                        geom.dimensions.width,
                        geom.dimensions.height,
                        geom.stride,
                        geom.format,
                        old(data)@.len() as usize,
                    ) is Ok
                    &&& d.spec_dimensions() == geom.dimensions && d.stride == geom.stride
                    &&& d.format == geom.format && d.dma_buf_fd is None
                    &&& d.data@ == old(data)@
                    &&& final(d.data)@ == final(data)@
                },
                Err(ScalixError::UnalignedPointer { address, alignment }) => {
                    &&& alignment == REQUIRED_MEMORY_ALIGNMENT && address % 64 != 0
                    &&& final(data)@ == old(data)@
                },
                Err(e) => {
                    &&& layout_result(
                        geom.dimensions.width,
                        geom.dimensions.height,
                        geom.stride,
                        geom.format,
                        old(data)@.len() as usize,
                    ) == Err::<(), ScalixError>(e)
                    &&& final(data)@ == old(data)@
                },
            },
    {
        Self::new(geom.dimensions.width, geom.dimensions.height, geom.stride, geom.format, data)
    }

    pub fn dimensions(&self) -> (r: ImageDimensions)
        ensures
            r == self.spec_dimensions(),
    {
        ImageDimensions::new(self.width, self.height)
    }

    /// Marks the image as backed by the DMA-BUF file descriptor `fd`.
    pub fn with_dma_buf(self, fd: i32) -> (r: Self)
        ensures
            r == (ImageDescMut { dma_buf_fd: Some(fd), ..self }),
    {
        let mut s = self;
        s.dma_buf_fd = Some(fd);
        s
    }
}

} // verus!
