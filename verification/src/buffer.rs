//! Owned heap image buffers.
use vstd::prelude::*;

use crate::desc::{ImageDesc, ImageDescMut};
use crate::types::{ImageDimensions, ImageGeometry, PixelFormat, Result, ScalixError};

verus! {

/// An image that owns its pixel bytes.
#[derive(Debug, Clone, PartialEq, Eq)]
pub struct OwnedImage {
    pub width: u32,
    pub height: u32,
    pub stride: usize,
    pub format: PixelFormat,
    pub data: Vec<u8>,
}

/// Outcome of sizing a zeroed image of the given layout: its size in bytes.
pub open spec fn zeroed_size_result(width: u32, height: u32, stride: usize, format: PixelFormat) -> Result<usize> {
    format.buffer_size_result(ImageDimensions { width, height }, stride)
}

impl OwnedImage {
    pub open spec fn spec_geometry(&self) -> ImageGeometry {
        ImageGeometry {
            dimensions: ImageDimensions { width: self.width, height: self.height },
            stride: self.stride,
            format: self.format,
        }
    }

    /// A zeroed image of `width` x `height` pixels with the tightest row pitch for `format`.
    pub fn allocate(width: u32, height: u32, format: PixelFormat) -> (r: Result<Self>)
        ensures
            match format.min_stride_result(width) {
                Err(e) => r == Err::<Self, ScalixError>(e),
                Ok(s) => match zeroed_size_result(width, height, s, format) {
                    Err(e) => r == Err::<Self, ScalixError>(e),
                    Ok(n) => r is Ok && {
                        let img = r->Ok_0;
                        &&& img.width == width && img.height == height && img.stride == s
                        &&& img.format == format
                        &&& img.data@ == Seq::new(n as nat, |i: int| 0u8)
                    },
                },
            },
    {
        let stride = match format.min_stride(width) {
            Ok(s) => s,
            Err(e) => return Err(e),
        };
        let size = match format.min_buffer_size(width, height, stride) {
            Ok(n) => n,
            Err(e) => return Err(e),
        };
        let data: Vec<u8> = vec![0u8; size];
        assert(data@ =~= Seq::new(size as nat, |i: int| 0u8));
        Ok(OwnedImage { width, height, stride, format, data })
    }

    /// A zeroed image laid out as `geom`.
    pub fn allocate_geometry(geom: ImageGeometry) -> (r: Result<Self>)
        ensures
            match zeroed_size_result(
                geom.dimensions.width,
                geom.dimensions.height,
                geom.stride,
                geom.format,
            ) {
                Err(e) => r == Err::<Self, ScalixError>(e),
                Ok(n) => r is Ok && r->Ok_0.spec_geometry() == geom && r->Ok_0.data@ == Seq::new(
                    n as nat,
                    |i: int| 0u8,
                ),
            },
    {
        let size = match geom.min_buffer_size() {
            Ok(n) => n,
            Err(e) => return Err(e),
        };
        let data: Vec<u8> = vec![0u8; size];
        assert(data@ =~= Seq::new(size as nat, |i: int| 0u8));
        Ok(
            OwnedImage {
                width: geom.dimensions.width,
                height: geom.dimensions.height,
                stride: geom.stride,
                format: geom.format,
                data,
            },
        )
    }

    /// Wraps `data` after checking it holds an image of the given layout.
    pub fn from_vec(width: u32, height: u32, stride: usize, format: PixelFormat, data: Vec<u8>) -> (r:
        Result<Self>)
        ensures
            match zeroed_size_result(width, height, stride, format) {
                Err(e) => r == Err::<Self, ScalixError>(e),
                Ok(n) => if data@.len() < n {
                    r == Err::<Self, ScalixError>(
                        ScalixError::BufferTooSmall { required: n, actual: data@.len() as usize },
                    )
                } else {
                    r == Ok::<Self, ScalixError>(OwnedImage { width, height, stride, format, data })
                },
            },
    {
        let min_size = match format.min_buffer_size(width, height, stride) {
            Ok(n) => n,
            Err(e) => return Err(e),
        };
        if data.len() < min_size {
            return Err(ScalixError::BufferTooSmall { required: min_size, actual: data.len() });
        }
        Ok(OwnedImage { width, height, stride, format, data })
    }

    /// Copies `data` into a new image after checking it holds an image of the given layout.
    pub fn from_slice(width: u32, height: u32, stride: usize, format: PixelFormat, data: &[u8]) -> (r:
        Result<Self>)
        ensures
            match zeroed_size_result(width, height, stride, format) {
                Err(e) => r == Err::<Self, ScalixError>(e),
                Ok(n) => if data@.len() < n {
                    r == Err::<Self, ScalixError>(
                        ScalixError::BufferTooSmall { required: n, actual: data@.len() as usize },
                    )
                } else {
                    r is Ok && {
                        let img = r->Ok_0;
                        &&& img.width == width && img.height == height && img.stride == stride
                        &&& img.format == format && img.data@ == data@
                    }
                },
            },
    {
        let mut v: Vec<u8> = Vec::with_capacity(data.len());
        let mut i: usize = 0;
        while i < data.len()
            invariant
                0 <= i <= data@.len(),
                v@ == data@.subrange(0, i as int),
            decreases data@.len() - i,
        {
            v.push(data[i]);
            i = i + 1;
            assert(v@ =~= data@.subrange(0, i as int));
        }
        assert(v@ =~= data@);
        Self::from_vec(width, height, stride, format, v)
    }

    /// Borrows the image as a read-only descriptor.
    pub fn as_desc(&self) -> (r: ImageDesc<'_>)
        ensures
            r.width == self.width && r.height == self.height && r.stride == self.stride,
            r.format == self.format && r.data@ == self.data@ && r.dma_buf_fd is None,
    {
        ImageDesc {
            width: self.width,
            height: self.height,
            stride: self.stride,
            format: self.format,
            data: self.data.as_slice(),
            dma_buf_fd: None,
        }
    }

    /// Borrows the image as a writable descriptor.
    pub fn as_desc_mut(&mut self) -> (r: ImageDescMut<'_>)
        ensures
            r.width == old(self).width && r.height == old(self).height,
            r.stride == old(self).stride && r.format == old(self).format,
            r.data@ == old(self).data@ && r.dma_buf_fd is None,
            final(self).width == old(self).width && final(self).height == old(self).height,
            final(self).stride == old(self).stride && final(self).format == old(self).format,
            final(self).data@ == final(r.data)@,
    {
        let width = self.width;
        let height = self.height;
        let stride = self.stride;
        let format = self.format;
        ImageDescMut { width, height, stride, format, data: self.data.as_mut_slice(), dma_buf_fd: None }
    }

    pub fn dimensions(&self) -> (r: ImageDimensions)
        ensures
            r == (ImageDimensions { width: self.width, height: self.height }),
    {
        ImageDimensions::new(self.width, self.height)
    }

    pub fn stride(&self) -> (r: usize)
        ensures
            r == self.stride,
    {
        self.stride
    }

    pub fn format(&self) -> (r: PixelFormat)
        ensures
            r == self.format,
    {
        self.format
    }

    pub fn geometry(&self) -> (r: ImageGeometry)
        ensures
            r == self.spec_geometry(),
    {
        ImageGeometry {
            dimensions: ImageDimensions::new(self.width, self.height),
            stride: self.stride,
            format: self.format,
        }
    }

    /// The pixel bytes.
    pub fn data(&self) -> (r: &[u8])
        ensures
            r@ == self.data@,
    {
        self.data.as_slice()
    }

    /// The pixel bytes, writable.
    pub fn data_mut(&mut self) -> (r: &mut [u8])
        ensures
            r@ == old(self).data@,
            final(self).width == old(self).width && final(self).height == old(self).height,
            final(self).stride == old(self).stride && final(self).format == old(self).format,
            final(self).data@ == final(r)@,
    {
        self.data.as_mut_slice()
    }
}

} // verus!
