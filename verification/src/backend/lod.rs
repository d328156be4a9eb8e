//! Pass planning for hierarchical (mip pyramid) downscaling.
use vstd::prelude::*;
use vstd::arithmetic::power2::{lemma2_to64, lemma_pow2_pos, lemma_pow2_unfold, pow2};

verus! {

/// Passes used when no cap on mip levels is given.
pub const DEFAULT_LOD_PASSES: u32 = 8;

/// Number of halving passes allowed for a mip level cap (`0` means the default).
pub open spec fn lod_budget(max_mip_levels: u32) -> int {
    if max_mip_levels > 0 { max_mip_levels as int } else { DEFAULT_LOD_PASSES as int }
}

/// Pass targets when the current image is `cw` x `ch`, the destination `dw` x `dh` and `budget`
/// halving passes remain: while the current image is more than twice the destination in some
/// direction, halve both extents (never below the destination); finish with the destination.
pub open spec fn lod_chain(cw: int, ch: int, dw: int, dh: int, budget: int) -> Seq<(u32, u32)>
    decreases budget,
{
    if budget > 0 && (cw > 2 * dw || ch > 2 * dh) {
        let nw = if cw / 2 >= dw { cw / 2 } else { dw };
        let nh = if ch / 2 >= dh { ch / 2 } else { dh };
        if nw == dw && nh == dh {
            seq![(nw as u32, nh as u32), (dw as u32, dh as u32)]
        } else {
            seq![(nw as u32, nh as u32)] + lod_chain(nw, nh, dw, dh, budget - 1)
        }
    } else {
        seq![(dw as u32, dh as u32)]
    }
}

/// Target sizes of the successive passes that downscale a `src_w` x `src_h` image to
/// `dst_w` x `dst_h`: successive halvings while the image is more than twice the destination,
/// at most `max_mip_levels` of them (8 when 0), then the destination itself.
pub fn plan_lod_passes(src_w: u32, src_h: u32, dst_w: u32, dst_h: u32, max_mip_levels: u32) -> (r: Vec<
    (u32, u32),
>)
    ensures
        r@ == lod_chain(src_w as int, src_h as int, dst_w as int, dst_h as int, lod_budget(max_mip_levels)),
{
    let max_passes: u32 = if max_mip_levels > 0 { max_mip_levels } else { DEFAULT_LOD_PASSES };
    let dw2: u64 = (dst_w as u64) * 2;
    let dh2: u64 = (dst_h as u64) * 2;
    let mut passes: Vec<(u32, u32)> = Vec::new();
    let mut cw = src_w;
    let mut ch = src_h;
    let mut count: u32 = 0;
    let ghost total = lod_chain(src_w as int, src_h as int, dst_w as int, dst_h as int, max_passes as int);
    loop
        invariant
            count <= max_passes,
            passes@.len() == count,
            dw2 == 2 * dst_w,
            dh2 == 2 * dst_h,
            passes@ + lod_chain(cw as int, ch as int, dst_w as int, dst_h as int, max_passes - count)
                == total,
            max_passes == lod_budget(max_mip_levels),
            total == lod_chain(src_w as int, src_h as int, dst_w as int, dst_h as int, lod_budget(max_mip_levels)),
        ensures
            passes@ == total,
        decreases max_passes - count,
    {
        if !(count < max_passes && (cw as u64 > dw2 || ch as u64 > dh2)) {
            let ghost before = passes@;
            passes.push((dst_w, dst_h));
            assert(passes@ =~= before + lod_chain(cw as int, ch as int, dst_w as int, dst_h as int, max_passes - count));
            return passes;
        }
        let nw = if cw / 2 >= dst_w { cw / 2 } else { dst_w };
        let nh = if ch / 2 >= dst_h { ch / 2 } else { dst_h };
        passes.push((nw, nh));
        if nw == dst_w && nh == dst_h {
            passes.push((dst_w, dst_h));
            assert(passes@ =~= total);
            return passes;
        }
        proof {
            let rest = lod_chain(nw as int, nh as int, dst_w as int, dst_h as int, max_passes - count - 1);
            assert(lod_chain(cw as int, ch as int, dst_w as int, dst_h as int, max_passes - count)
                == seq![(nw, nh)] + rest);
        }
        cw = nw;
        ch = nh;
        count = count + 1;
    }
}

/// Law: a pass plan ends at the destination size, never goes below it, and has at most one
/// pass more than the halving budget.
pub proof fn lemma_lod_chain_shape(cw: int, ch: int, dw: int, dh: int, budget: int)
    requires
        0 <= dw <= u32::MAX,
        0 <= dh <= u32::MAX,
        0 <= cw <= u32::MAX,
        0 <= ch <= u32::MAX,
    ensures
        lod_chain(cw, ch, dw, dh, budget).len() >= 1,
        lod_chain(cw, ch, dw, dh, budget).len() <= (if budget > 0 { budget } else { 0 }) + 1,
        lod_chain(cw, ch, dw, dh, budget).last() == (dw as u32, dh as u32),
        forall|i: int|
            0 <= i < lod_chain(cw, ch, dw, dh, budget).len() ==> {
                &&& (#[trigger] lod_chain(cw, ch, dw, dh, budget)[i]).0 >= dw
                &&& lod_chain(cw, ch, dw, dh, budget)[i].1 >= dh
            },
    decreases budget,
{
    if budget > 0 && (cw > 2 * dw || ch > 2 * dh) {
        let nw = if cw / 2 >= dw { cw / 2 } else { dw };
        let nh = if ch / 2 >= dh { ch / 2 } else { dh };
        if !(nw == dw && nh == dh) {
            lemma_lod_chain_shape(nw, nh, dw, dh, budget - 1);
            let rest = lod_chain(nw, nh, dw, dh, budget - 1);
            let all = lod_chain(cw, ch, dw, dh, budget);
            assert(all == seq![(nw as u32, nh as u32)] + rest);
            assert forall|i: int| 0 <= i < all.len() implies (#[trigger] all[i]).0 >= dw && all[i].1 >= dh by {
                if i > 0 {
                    assert(all[i] == rest[i - 1]);
                }
            }
        }
    }
}

/// Size of the image the final pass of `chain` starts from: the pass before it, or the source
/// (`cw` x `ch`) when the plan is the final pass alone.
pub open spec fn final_pass_source(chain: Seq<(u32, u32)>, cw: int, ch: int) -> (int, int) {
    if chain.len() >= 2 {
        (chain[chain.len() - 2].0 as int, chain[chain.len() - 2].1 as int)
    } else {
        (cw, ch)
    }
}

/// Law: with `budget` halvings, a source at most `2^budget` times the destination in each
/// extent is brought to at most twice the destination before the final pass, so no pass shrinks
/// an extent by more than half.
pub proof fn lemma_lod_final_pass_at_most_double(cw: int, ch: int, dw: int, dh: int, budget: nat)
    requires
        0 <= dw <= u32::MAX,
        0 <= dh <= u32::MAX,
        0 <= cw <= u32::MAX,
        0 <= ch <= u32::MAX,
        cw <= pow2(budget) * dw,
        ch <= pow2(budget) * dh,
    ensures
        final_pass_source(lod_chain(cw, ch, dw, dh, budget as int), cw, ch).0 <= 2 * dw,
        final_pass_source(lod_chain(cw, ch, dw, dh, budget as int), cw, ch).1 <= 2 * dh,
    decreases budget,
{
    lemma_pow2_pos(budget);
    if budget > 0 && (cw > 2 * dw || ch > 2 * dh) {
        let nw = if cw / 2 >= dw { cw / 2 } else { dw };
        let nh = if ch / 2 >= dh { ch / 2 } else { dh };
        if !(nw == dw && nh == dh) {
            let b1 = (budget - 1) as nat;
            lemma_pow2_unfold(budget);
            lemma_pow2_pos(b1);
            assert(pow2(budget) == 2 * pow2(b1));
            assert(cw / 2 <= pow2(b1) * dw) by (nonlinear_arith)
                requires
                    cw <= 2 * pow2(b1) * dw,
                    cw >= 0,
            ;
            assert(ch / 2 <= pow2(b1) * dh) by (nonlinear_arith)
                requires
                    ch <= 2 * pow2(b1) * dh,
                    ch >= 0,
            ;
            assert(dw <= pow2(b1) * dw) by (nonlinear_arith)
                requires
                    pow2(b1) >= 1,
                    dw >= 0,
            ;
            assert(dh <= pow2(b1) * dh) by (nonlinear_arith)
                requires
                    pow2(b1) >= 1,
                    dh >= 0,
            ;
            lemma_lod_final_pass_at_most_double(nw, nh, dw, dh, b1);
            lemma_lod_chain_shape(nw, nh, dw, dh, b1 as int);
            let rest = lod_chain(nw, nh, dw, dh, b1 as int);
            let all = lod_chain(cw, ch, dw, dh, budget as int);
            assert(all == seq![(nw as u32, nh as u32)] + rest);
            if rest.len() >= 2 {
                assert(all[all.len() - 2] == rest[rest.len() - 2]);
            } else {
                assert(all[all.len() - 2] == (nw as u32, nh as u32));
            }
        }
    } else if budget == 0 {
        assert(pow2(0) == 1) by {
            lemma2_to64();
        }
    }
}

/// Law: a pyramid plan never shrinks an extent by more than half in its final pass when the
/// source is within the halving budget of the destination: 8 halvings (a factor of 256) when no
/// mip cap is given, `max_mip_levels` halvings otherwise.
pub proof fn lemma_plan_lod_final_pass_at_most_double(
    src_w: u32,
    src_h: u32,
    dst_w: u32,
    dst_h: u32,
    max_mip_levels: u32,
)
    requires
        max_mip_levels == 0 ==> src_w <= 256 * dst_w && src_h <= 256 * dst_h,
        max_mip_levels > 0 ==> src_w <= pow2(max_mip_levels as nat) * dst_w && src_h <= pow2(
            max_mip_levels as nat,
        ) * dst_h,
    ensures
        final_pass_source(
            lod_chain(src_w as int, src_h as int, dst_w as int, dst_h as int, lod_budget(max_mip_levels)),
            src_w as int,
            src_h as int,
        ).0 <= 2 * dst_w,
        final_pass_source(
            lod_chain(src_w as int, src_h as int, dst_w as int, dst_h as int, lod_budget(max_mip_levels)),
            src_w as int,
            src_h as int,
        ).1 <= 2 * dst_h,
{
    if max_mip_levels == 0 {
        assert(pow2(8) == 256) by {
            lemma2_to64();
        }
        lemma_lod_final_pass_at_most_double(src_w as int, src_h as int, dst_w as int, dst_h as int, 8);
    } else {
        lemma_lod_final_pass_at_most_double(
            src_w as int,
            src_h as int,
            dst_w as int,
            dst_h as int,
            max_mip_levels as nat,
        );
    }
}

} // verus!
