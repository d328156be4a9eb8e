//! Reference backend: copies the overlapping region of two images of the same format.
use vstd::prelude::*;

use crate::backend::Backend;
use crate::desc::{ImageDesc, ImageDescMut};
use crate::options::ResizeOptions;
use crate::types::{BackendType, ImageDimensions, PixelFormat, Result, ScalixError};

verus! {

/// `d` with bytes `y * ds .. y * ds + len` replaced by `s[y * ss ..]`.
pub open spec fn write_row(d: Seq<u8>, s: Seq<u8>, y: int, ss: int, ds: int, len: int) -> Seq<u8> {
    Seq::new(
        d.len(),
        |i: int|
            if y * ds <= i < y * ds + len {
                s[y * ss + (i - y * ds)]
            } else {
                d[i]
            },
    )
}

/// `d` after rows `0..n` of `s` (pitch `ss`) were written in order into it (pitch `ds`),
/// `len` bytes each.
pub open spec fn copy_rows(d: Seq<u8>, s: Seq<u8>, n: int, ss: int, ds: int, len: int) -> Seq<u8>
    decreases n,
{
    if n <= 0 {
        d
    } else {
        write_row(copy_rows(d, s, n - 1, ss, ds, len), s, n - 1, ss, ds, len)
    }
}

/// Rows copied by a passthrough transfer.
pub open spec fn copy_height(src: &ImageDesc, dst: &ImageDescMut) -> int {
    if src.height <= dst.height { src.height as int } else { dst.height as int }
}

/// Bytes copied per row by a passthrough transfer.
pub open spec fn copy_row_bytes(src: &ImageDesc, dst: &ImageDescMut) -> int {
    let w = if src.width <= dst.width { src.width as int } else { dst.width as int };
    w * src.format.unit_bytes()
}

/// Every row that a passthrough transfer copies lies inside both buffers.
pub open spec fn passthrough_fits(src: &ImageDesc, dst: &ImageDescMut) -> bool {
    let h = copy_height(src, dst);
    let row = copy_row_bytes(src, dst);
    h == 0 || {
        &&& (h - 1) * src.stride + row <= src.data@.len()
        &&& (h - 1) * dst.stride + row <= dst.data@.len()
    }
}

/// A transfer can run into a bounds violation only when formats match and are packed; this
/// holds when it cannot.
pub open spec fn passthrough_requires(src: &ImageDesc, dst: &ImageDescMut) -> bool {
    src.format == dst.format && !src.format.is_planar() ==> passthrough_fits(src, dst)
}

/// Destination bytes after a successful passthrough transfer.
pub open spec fn passthrough_output(src: &ImageDesc, dst: &ImageDescMut) -> Seq<u8> {
    copy_rows(
        dst.data@,
        src.data@,
        copy_height(src, dst),
        src.stride as int,
        dst.stride as int,
        copy_row_bytes(src, dst),
    )
}

/// A reference backend that transfers memory without resizing: the region both images cover is
/// copied row by row, the rest of the destination is left as it is.
#[derive(Debug, Clone, Copy, Default)]
pub struct PassthroughBackend;

/// Name reported by the passthrough backend.
pub open spec fn passthrough_name() -> Seq<char> {
    "Passthrough / Memory Transfer Backend"@
}

proof fn lemma_copy_rows_len(d: Seq<u8>, s: Seq<u8>, n: int, ss: int, ds: int, len: int)
    ensures
        copy_rows(d, s, n, ss, ds, len).len() == d.len(),
    decreases n,
{
    if n > 0 {
        lemma_copy_rows_len(d, s, n - 1, ss, ds, len);
    }
}

/// Byte `i` of `copy_rows` for non-overlapping rows (`len <= ds`): a source byte where `i` falls
/// inside one of the first `n` destination rows, the original byte elsewhere.
pub open spec fn copied_byte(d: Seq<u8>, s: Seq<u8>, n: int, ss: int, ds: int, len: int, i: int) -> u8 {
    if 0 < ds && i < n * ds && i % ds < len {
        s[(i / ds) * ss + i % ds]
    } else {
        d[i]
    }
}

proof fn lemma_row_position(i: int, ds: int, y: int)
    requires
        ds > 0,
        y * ds <= i < y * ds + ds,
    ensures
        i / ds == y,
        i % ds == i - y * ds,
{
    vstd::arithmetic::div_mod::lemma_fundamental_div_mod_converse(i, ds, y, i - y * ds);
}

/// Rows that do not overlap are written independently: `copy_rows` agrees with `copied_byte`.
pub proof fn lemma_copy_rows_closed(d: Seq<u8>, s: Seq<u8>, n: int, ss: int, ds: int, len: int)
    requires
        0 <= n,
        0 <= len <= ds,
    ensures
        copy_rows(d, s, n, ss, ds, len).len() == d.len(),
        forall|i: int|
            0 <= i < d.len() ==> #[trigger] copy_rows(d, s, n, ss, ds, len)[i] == copied_byte(
                d,
                s,
                n,
                ss,
                ds,
                len,
                i,
            ),
    decreases n,
{
    lemma_copy_rows_len(d, s, n, ss, ds, len);
    if n > 0 {
        lemma_copy_rows_closed(d, s, n - 1, ss, ds, len);
        let prev = copy_rows(d, s, n - 1, ss, ds, len);
        let y = n - 1;
        assert forall|i: int| 0 <= i < d.len() implies #[trigger] copy_rows(d, s, n, ss, ds, len)[i]
            == copied_byte(d, s, n, ss, ds, len, i) by {
            assert(copy_rows(d, s, n, ss, ds, len)[i] == write_row(prev, s, y, ss, ds, len)[i]);
            assert(prev[i] == copied_byte(d, s, n - 1, ss, ds, len, i));
            if ds > 0 {
                assert(n * ds == y * ds + ds) by (nonlinear_arith)
                    requires y == n - 1;
                if y * ds <= i < y * ds + ds {
                    lemma_row_position(i, ds, y);
                } else if i < y * ds {
                    assert(i < n * ds);
                } else {
                    assert(i >= n * ds);
                }
            } else {
                assert(len == 0);
            }
        }
    } else {
        assert forall|i: int| 0 <= i < d.len() implies #[trigger] copy_rows(d, s, n, ss, ds, len)[i]
            == copied_byte(d, s, n, ss, ds, len, i) by {
            assert(n * ds == 0);
        }
    }
}

/// Law: a passthrough transfer between two images of the same packed format, size and tight
/// row pitch leaves the destination byte-for-byte equal to the source.
pub proof fn lemma_passthrough_tight_copy_is_identity(src: &ImageDesc, dst: &ImageDescMut)
    requires
        src.format == dst.format,
        !src.format.is_planar(),
        src.width == dst.width,
        src.height == dst.height,
        src.stride == dst.stride,
        src.stride as int == src.format.min_stride_of(src.width as int),
        src.data@.len() == src.height * src.stride,
        dst.data@.len() == src.data@.len(),
    ensures
        passthrough_output(src, dst) == src.data@,
{
    let n = copy_height(src, dst);
    let row = copy_row_bytes(src, dst);
    let st = src.stride as int;
    assert(row == st);
    lemma_copy_rows_closed(dst.data@, src.data@, n, st, st, row);
    let out = passthrough_output(src, dst);
    assert forall|i: int| 0 <= i < src.data@.len() implies out[i] == src.data@[i] by {
        assert(out[i] == copied_byte(dst.data@, src.data@, n, st, st, row, i));
        if st > 0 {
            assert(n == src.height);
            assert(i < n * st);
            vstd::arithmetic::div_mod::lemma_fundamental_div_mod(i, st);
            assert((i / st) * st + i % st == i) by (nonlinear_arith)
                requires i == st * (i / st) + (i % st);
            assert(i % st < st) by {
                vstd::arithmetic::div_mod::lemma_mod_bound(i, st);
            }
        } else {
            assert(src.data@.len() == 0) by (nonlinear_arith)
                requires src.data@.len() == src.height * st, st == 0;
        }
    }
    assert(out =~= src.data@);
}

impl PassthroughBackend {
    /// The backend (it holds no state).
    pub fn new() -> (r: Self)
        ensures
            r == (PassthroughBackend),
    {
        PassthroughBackend
    }

    pub fn name(&self) -> (r: &'static str)
        ensures
            r@ == passthrough_name(),
    {
        "Passthrough / Memory Transfer Backend"
    }

    pub fn backend_type(&self) -> (r: BackendType)
        ensures
            r == BackendType::Passthrough,
    {
        BackendType::Passthrough
    }

    /// Always available: it needs no hardware.
    pub fn is_available(&self) -> (r: bool)
        ensures
            r,
    {
        true
    }

    /// Whether a transfer from `src` into `dst` stays inside both buffers.
    pub fn layout_fits(src: &ImageDesc, dst: &ImageDescMut) -> (r: bool)
        ensures
            r == passthrough_requires(src, dst),
    {
        if src.format != dst.format || src.format.bytes_per_pixel().is_none() {
            return true;
        }
        let bpp: usize = match src.format.bytes_per_pixel() {
            Some(b) => b,
            None => 1,
        };
        let copy_w = if src.width <= dst.width { src.width } else { dst.width };
        let copy_h = if src.height <= dst.height { src.height } else { dst.height };
        if copy_h == 0 {
            return true;
        }
        assert(bpp <= 16);
        assert(copy_w as int * bpp as int <= 0xffff_ffff * 16) by (nonlinear_arith)
            requires copy_w <= 0xffff_ffff, bpp <= 16;
        let row = (copy_w as u128) * (bpp as u128);
        let last = (copy_h - 1) as u128;
        if src.stride as u128 > u64::MAX as u128 || dst.stride as u128 > u64::MAX as u128 {
            // strides wider than the address space cannot fit rows beyond the first
            return last == 0 && row <= src.data.len() as u128 && row <= dst.data.len() as u128;
        }
        assert(last * (src.stride as u128) <= 0xffff_ffff * 0xffff_ffff_ffff_ffff) by (nonlinear_arith)
            requires last <= 0xffff_ffff, src.stride <= u64::MAX;
        assert(last * (dst.stride as u128) <= 0xffff_ffff * 0xffff_ffff_ffff_ffff) by (nonlinear_arith)
            requires last <= 0xffff_ffff, dst.stride <= u64::MAX;
        let src_need = last * (src.stride as u128) + row;
        let dst_need = last * (dst.stride as u128) + row;
        src_need <= src.data.len() as u128 && dst_need <= dst.data.len() as u128
    }

    /// Copies the region both images cover, row by row, from `src` into `dst`.
    ///
    /// Fails when the formats differ or are planar; the filter in `options` is ignored.
    pub fn process(&self, src: &ImageDesc, dst: &mut ImageDescMut, options: &ResizeOptions) -> (r:
        Result<()>)
        requires
            passthrough_requires(src, old(dst)),
        ensures
            final(dst).width == old(dst).width,
            final(dst).height == old(dst).height,
            final(dst).stride == old(dst).stride,
            final(dst).format == old(dst).format,
            final(dst).dma_buf_fd == old(dst).dma_buf_fd,
            src.format != old(dst).format ==> final(dst).data@ == old(dst).data@ && (r matches Err(
                ScalixError::ExecutionFailed(m),
            ) && m@ == "Format conversion not supported in passthrough mode (src: "@
                + src.format.format_name() + ", dst: "@ + old(dst).format.format_name() + ")"@),
            src.format == old(dst).format && src.format.is_planar() ==> r == Err::<(), ScalixError>(
                ScalixError::UnsupportedFormat(src.format),
            ) && final(dst).data@ == old(dst).data@,
            src.format == old(dst).format && !src.format.is_planar() ==> r is Ok
                && final(dst).data@ == passthrough_output(src, old(dst)),
    {
        if src.format != dst.format {
            let mut msg = "Format conversion not supported in passthrough mode (src: ".to_owned();
            msg.append(src.format.debug_name());
            msg.append(", dst: ");
            msg.append(dst.format.debug_name());
            msg.append(")");
            return Err(ScalixError::ExecutionFailed(msg));
        }
        let bpp = match src.format.bytes_per_pixel() {
            Some(b) => b,
            None => return Err(ScalixError::UnsupportedFormat(src.format)),
        };
        let copy_w = if src.width <= dst.width { src.width } else { dst.width };
        let copy_h = if src.height <= dst.height { src.height } else { dst.height };
        let src_len = src.data.len();
        let dst_len = dst.data.len();
        let ghost d0 = dst.data@;
        let ghost s = src.data@;
        let ghost ss = src.stride as int;
        let ghost ds = dst.stride as int;
        if copy_h == 0 {
            return Ok(());
        }
        assert(bpp as int == src.format.unit_bytes());
        assert(copy_row_bytes(src, old(dst)) == copy_w as int * bpp as int);
        assert(copy_w as int * bpp as int <= src.data@.len()) by (nonlinear_arith)
            requires
                (copy_h - 1) * src.stride + copy_w * bpp <= src.data@.len(),
                copy_h >= 1;
        let row_bytes = (copy_w as usize) * bpp;
        let ghost row = row_bytes as int;
        let mut y: usize = 0;
        while y < copy_h as usize
            invariant
                passthrough_fits(src, old(dst)),
                copy_h as int == copy_height(src, old(dst)),
                row == copy_row_bytes(src, old(dst)),
                row_bytes == row,
                s == src.data@,
                ss == src.stride,
                ds == dst.stride,
                d0 == old(dst).data@,
                dst.width == old(dst).width,
                dst.height == old(dst).height,
                dst.stride == old(dst).stride,
                dst.format == old(dst).format,
                dst.dma_buf_fd == old(dst).dma_buf_fd,
                0 <= y <= copy_h,
                copy_h >= 1,
                src_len == s.len(),
                dst_len == d0.len(),
                dst.data@ == copy_rows(d0, s, y as int, ss, ds, row),
            decreases copy_h - y,
        {
            assert(y * src.stride + row <= s.len() && y * dst.stride + row <= d0.len())
                by (nonlinear_arith)
                requires
                    y < copy_h,
                    (copy_h - 1) * src.stride + row <= s.len(),
                    (copy_h - 1) * dst.stride + row <= d0.len(),
                    row >= 0;
            proof {
                lemma_copy_rows_len(d0, s, y as int, ss, ds, row);
            }
            let src_off = y * src.stride;
            let dst_off = y * dst.stride;
            let ghost before = dst.data@;
            let mut x: usize = 0;
            while x < row_bytes
                invariant
                    row_bytes == row,
                    src_off == y * ss,
                    dst_off == y * ds,
                    src_off + row <= s.len(),
                    dst_off + row <= d0.len(),
                    src_len == s.len(),
                    dst_len == d0.len(),
                    s == src.data@,
                    before.len() == d0.len(),
                    dst.width == old(dst).width,
                    dst.height == old(dst).height,
                    dst.stride == old(dst).stride,
                    dst.format == old(dst).format,
                    dst.dma_buf_fd == old(dst).dma_buf_fd,
                    0 <= x <= row_bytes,
                    dst.data@ == write_row(before, s, y as int, ss, ds, x as int),
                decreases row_bytes - x,
            {
                let v = src.data[src_off + x];
                dst.data[dst_off + x] = v;
                assert(dst.data@ =~= write_row(before, s, y as int, ss, ds, x + 1));
                x = x + 1;
            }
            assert(copy_rows(d0, s, y + 1, ss, ds, row) == write_row(
                copy_rows(d0, s, y as int, ss, ds, row),
                s,
                y as int,
                ss,
                ds,
                row,
            ));
            y = y + 1;
        }
        Ok(())
    }
}

/// Descriptors that describe their buffers always leave room for a passthrough transfer: the
/// copied rows are no longer and no more numerous than either image's own.
pub proof fn lemma_consistent_layouts_fit(src: &ImageDesc, dst: &ImageDescMut)
    requires
        src.spec_layout_ok(),
        dst.spec_layout_ok(),
    ensures
        passthrough_requires(src, dst),
{
    if src.format == dst.format && !src.format.is_planar() {
        let u = src.format.unit_bytes();
        let h = copy_height(src, dst);
        let row = copy_row_bytes(src, dst);
        let ws = src.width as int;
        let wd = dst.width as int;
        let hs = src.height as int;
        let hd = dst.height as int;
        let ss = src.stride as int;
        let ds = dst.stride as int;
        let w = if ws <= wd { ws } else { wd };
        assert(src.format.required_bytes(ImageDimensions { width: src.width, height: src.height }, ss)
            == ss * (hs - 1) + ws * u);
        assert(dst.format.required_bytes(ImageDimensions { width: dst.width, height: dst.height }, ds)
            == ds * (hd - 1) + wd * u);
        assert(ss * (hs - 1) + ws * u <= src.data@.len());
        assert(ds * (hd - 1) + wd * u <= dst.data@.len());
        assert(row == w * u);
        if h > 0 {
            assert((h - 1) * ss + row <= src.data@.len()) by (nonlinear_arith)
                requires
                    1 <= h <= hs,
                    ss >= 0,
                    0 <= w <= ws,
                    u >= 1,
                    row == w * u,
                    ss * (hs - 1) + ws * u <= src.data@.len();
            assert((h - 1) * ds + row <= dst.data@.len()) by (nonlinear_arith)
                requires
                    1 <= h <= hd,
                    ds >= 0,
                    0 <= w <= wd,
                    u >= 1,
                    row == w * u,
                    ds * (hd - 1) + wd * u <= dst.data@.len();
        }
    }
}

impl Backend for PassthroughBackend {
    fn name(&self) -> (r: &'static str)
        ensures
            r@ == passthrough_name(),
    {
        PassthroughBackend::name(self)
    }

    fn backend_type(&self) -> (r: BackendType)
        ensures
            r == BackendType::Passthrough,
    {
        PassthroughBackend::backend_type(self)
    }

    fn is_available(&self) -> (r: bool)
        ensures
            r,
    {
        PassthroughBackend::is_available(self)
    }

    /// Copies the region both images cover (see `PassthroughBackend::process`).
    fn process(&self, src: &ImageDesc, dst: &mut ImageDescMut, options: &ResizeOptions) -> (r: Result<
        (),
    >)
        ensures
            final(dst).width == old(dst).width,
            final(dst).height == old(dst).height,
            final(dst).stride == old(dst).stride,
            final(dst).format == old(dst).format,
            final(dst).dma_buf_fd == old(dst).dma_buf_fd,
            src.format != old(dst).format ==> final(dst).data@ == old(dst).data@ && (r matches Err(
                ScalixError::ExecutionFailed(m),
            ) && m@ == "Format conversion not supported in passthrough mode (src: "@
                + src.format.format_name() + ", dst: "@ + old(dst).format.format_name() + ")"@),
            src.format == old(dst).format && src.format.is_planar() ==> r == Err::<(), ScalixError>(
                ScalixError::UnsupportedFormat(src.format),
            ) && final(dst).data@ == old(dst).data@,
            src.format == old(dst).format && !src.format.is_planar() ==> r is Ok
                && final(dst).data@ == passthrough_output(src, old(dst)),
    {
        proof {
            lemma_consistent_layouts_fit(src, dst);
        }
        PassthroughBackend::process(self, src, dst, options)
    }
}

impl PixelFormat {
    /// The variant's name, as `{:?}` prints it.
    pub open spec fn format_name(self) -> Seq<char> {
        match self {
            PixelFormat::Rgba8888 => "Rgba8888"@,
            PixelFormat::Bgra8888 => "Bgra8888"@,
            PixelFormat::Rgb888 => "Rgb888"@,
            PixelFormat::Bgr888 => "Bgr888"@,
            PixelFormat::R8 => "R8"@,
            PixelFormat::Rg88 => "Rg88"@,
            PixelFormat::Nv12 => "Nv12"@,
            PixelFormat::Yuv420p => "Yuv420p"@,
            PixelFormat::Rgba16f => "Rgba16f"@,
            PixelFormat::Rgba32f => "Rgba32f"@,
        }
    }

    /// The variant's name, as `{:?}` prints it.
    pub fn debug_name(&self) -> (r: &'static str)
        ensures
            r@ == self.format_name(),
    {
        match self {
            PixelFormat::Rgba8888 => "Rgba8888",
            PixelFormat::Bgra8888 => "Bgra8888",
            PixelFormat::Rgb888 => "Rgb888",
            PixelFormat::Bgr888 => "Bgr888",
            PixelFormat::R8 => "R8",
            PixelFormat::Rg88 => "Rg88",
            PixelFormat::Nv12 => "Nv12",
            PixelFormat::Yuv420p => "Yuv420p",
            PixelFormat::Rgba16f => "Rgba16f",
            PixelFormat::Rgba32f => "Rgba32f",
        }
    }
}

} // verus!
