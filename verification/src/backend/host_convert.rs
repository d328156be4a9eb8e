//! Host-side conversion between packed 24-bit RGB and 32-bit RGBA pixels.
use vstd::prelude::*;

verus! {

/// Byte `i` of `n` RGB888 pixels from `rgb` expanded to RGBA8888 with opaque alpha.
pub open spec fn unpacked_byte(rgb: Seq<u8>, i: int) -> u8 {
    if i % 4 == 3 {
        255u8
    } else {
        rgb[(i / 4) * 3 + i % 4]
    }
}

/// Byte `i` of RGBA8888 pixels `rgba` packed to RGB888 (alpha dropped).
pub open spec fn repacked_byte(rgba: Seq<u8>, i: int) -> u8 {
    rgba[(i / 3) * 4 + i % 3]
}

/// Expands `num_pixels` packed RGB888 pixels of `src` into RGBA8888 pixels in `dst`, alpha 255.
/// Bytes of `dst` past `4 * num_pixels` are left as they are.
pub fn cpu_unpack_rgb888(src: &[u8], dst: &mut [u8], num_pixels: usize)
    requires
        src@.len() >= 3 * num_pixels,
        old(dst)@.len() >= 4 * num_pixels,
    ensures
        final(dst)@.len() == old(dst)@.len(),
        forall|i: int| 0 <= i < 4 * num_pixels ==> #[trigger] final(dst)@[i] == unpacked_byte(src@, i),
        forall|i: int| 4 * num_pixels <= i < old(dst)@.len() ==> #[trigger] final(dst)@[i] == old(dst)@[i],
{
    let ghost d0 = dst@;
    let src_len = src.len();
    let dst_len = dst.len();
    let mut p: usize = 0;
    while p < num_pixels
        invariant
            src@.len() >= 3 * num_pixels,
            d0.len() >= 4 * num_pixels,
            dst@.len() == d0.len(),
            src_len == src@.len(),
            dst_len == d0.len(),
            0 <= p <= num_pixels,
            forall|i: int| 0 <= i < 4 * p ==> #[trigger] dst@[i] == unpacked_byte(src@, i),
            forall|i: int| 4 * p <= i < d0.len() ==> #[trigger] dst@[i] == d0[i],
        decreases num_pixels - p,
    {
        let s = p * 3;
        let d = p * 4;
        dst[d] = src[s];
        dst[d + 1] = src[s + 1];
        dst[d + 2] = src[s + 2];
        dst[d + 3] = 255;
        assert forall|i: int| 0 <= i < 4 * (p + 1) implies #[trigger] dst@[i] == unpacked_byte(src@, i) by {
            if i >= 4 * p {
                vstd::arithmetic::div_mod::lemma_fundamental_div_mod_converse(i, 4, p as int, i - 4 * p);
            }
        }
        p = p + 1;
    }
}

/// Packs `num_pixels` RGBA8888 pixels of `src` into RGB888 pixels in `dst`, dropping alpha.
/// Bytes of `dst` past `3 * num_pixels` are left as they are.
pub fn cpu_repack_rgb888(src: &[u8], dst: &mut [u8], num_pixels: usize)
    requires
        src@.len() >= 4 * num_pixels,
        old(dst)@.len() >= 3 * num_pixels,
    ensures
        final(dst)@.len() == old(dst)@.len(),
        forall|i: int| 0 <= i < 3 * num_pixels ==> #[trigger] final(dst)@[i] == repacked_byte(src@, i),
        forall|i: int| 3 * num_pixels <= i < old(dst)@.len() ==> #[trigger] final(dst)@[i] == old(dst)@[i],
{
    let ghost d0 = dst@;
    let src_len = src.len();
    let dst_len = dst.len();
    let mut p: usize = 0;
    while p < num_pixels
        invariant
            src@.len() >= 4 * num_pixels,
            d0.len() >= 3 * num_pixels,
            dst@.len() == d0.len(),
            src_len == src@.len(),
            dst_len == d0.len(),
            0 <= p <= num_pixels,
            forall|i: int| 0 <= i < 3 * p ==> #[trigger] dst@[i] == repacked_byte(src@, i),
            forall|i: int| 3 * p <= i < d0.len() ==> #[trigger] dst@[i] == d0[i],
        decreases num_pixels - p,
    {
        let s = p * 4;
        let d = p * 3;
        dst[d] = src[s];
        dst[d + 1] = src[s + 1];
        dst[d + 2] = src[s + 2];
        assert forall|i: int| 0 <= i < 3 * (p + 1) implies #[trigger] dst@[i] == repacked_byte(src@, i) by {
            if i >= 3 * p {
                vstd::arithmetic::div_mod::lemma_fundamental_div_mod_converse(i, 3, p as int, i - 3 * p);
            }
        }
        p = p + 1;
    }
}

/// Law: packing the RGBA pixels that unpacking produced gives back the original RGB bytes.
pub proof fn lemma_unpack_then_repack_roundtrip(rgb: Seq<u8>, rgba: Seq<u8>, out: Seq<u8>, n: int)
    requires
        0 <= n,
        rgb.len() >= 3 * n,
        rgba.len() >= 4 * n,
        out.len() >= 3 * n,
        forall|i: int| 0 <= i < 4 * n ==> #[trigger] rgba[i] == unpacked_byte(rgb, i),
        forall|i: int| 0 <= i < 3 * n ==> #[trigger] out[i] == repacked_byte(rgba, i),
    ensures
        out.subrange(0, 3 * n) == rgb.subrange(0, 3 * n),
{
    assert forall|i: int| 0 <= i < 3 * n implies out[i] == rgb[i] by {
        let p = i / 3;
        let c = i % 3;
        vstd::arithmetic::div_mod::lemma_fundamental_div_mod(i, 3);
        vstd::arithmetic::div_mod::lemma_mod_bound(i, 3);
        let j = p * 4 + c;
        assert(0 <= j < 4 * n);
        vstd::arithmetic::div_mod::lemma_fundamental_div_mod_converse(j, 4, p, c);
        assert(rgba[j] == unpacked_byte(rgb, j));
    }
    assert(out.subrange(0, 3 * n) =~= rgb.subrange(0, 3 * n));
}

} // verus!
