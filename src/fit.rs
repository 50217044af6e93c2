//! Fit-to-window arithmetic: the smallest window size, the size a picture is
//! drawn at, and where it is drawn so that it sits in the window's centre.

use vstd::prelude::*;

verus! {

/// The smallest width and height a window is opened with.
pub const MIN_WINDOW_DIMENSION: u32 = 150;

/// A requested window dimension, raised to the minimum where it falls short.
pub open spec fn clamped_dimension(d: nat) -> nat {
    if d < MIN_WINDOW_DIMENSION {
        MIN_WINDOW_DIMENSION as nat
    } else {
        d
    }
}

/// The source is strictly smaller than the target on both axes, and is drawn
/// as it is.
pub open spec fn fits_unscaled(sw: nat, sh: nat, tw: nat, th: nat) -> bool {
    sh < th && sw < tw
}

/// The width ratio `tw / sw` is strictly the smaller of the two scale
/// factors, written without division.
pub open spec fn width_limits(sw: nat, sh: nat, tw: nat, th: nat) -> bool {
    tw * sh < th * sw
}

/// The size a `sw` x `sh` picture is drawn at inside a `tw` x `th` target:
/// unchanged when it fits, otherwise scaled by
/// `min(tw / sw, th / sh)` with each side truncated toward zero.
pub open spec fn fitted_size(sw: nat, sh: nat, tw: nat, th: nat) -> (nat, nat)
    recommends
        sw > 0,
        sh > 0,
{
    if fits_unscaled(sw, sh, tw, th) {
        (sw, sh)
    } else if width_limits(sw, sh, tw, th) {
        (tw, tw * sh / sw)
    } else {
        (th * sw / sh, th)
    }
}

/// Offset that centres a span of `inner` inside a span of `outer`.
pub open spec fn centre_offset(outer: nat, inner: nat) -> int {
    (outer - inner) / 2
}

/// Raises a requested window dimension to the minimum where it is below it.
pub fn clamp_window_dimension(d: u32) -> (r: u32)
    ensures
        r as nat == clamped_dimension(d as nat),
        d < MIN_WINDOW_DIMENSION ==> r == MIN_WINDOW_DIMENSION,
        d >= MIN_WINDOW_DIMENSION ==> r == d,
{
    if d < MIN_WINDOW_DIMENSION {
        MIN_WINDOW_DIMENSION
    } else {
        d
    }
}

proof fn lemma_scaled_side_bounded(a: nat, b: nat, s: nat, t: nat)
    requires
        s > 0,
        a * b <= t * s,
    ensures
        a * b / s <= t,
{
    assert(a * b / s <= t) by (nonlinear_arith)
        requires
            s > 0,
            a * b <= t * s,
    {
        vstd::arithmetic::div_mod::lemma_div_is_ordered((a * b) as int, (t * s) as int, s as int);
        vstd::arithmetic::div_mod::lemma_div_by_multiple(t as int, s as int);
    }
}

/// Fitting never grows a picture past its target. A source strictly smaller
/// than the target on both axes keeps its size. Any other comes out within
/// the target, with one side equal to the target's and the other side the
/// source's scaled by the same ratio, truncated toward zero.
pub proof fn lemma_fit_invariant(sw: nat, sh: nat, tw: nat, th: nat)
    requires
        sw > 0,
        sh > 0,
    ensures
        fits_unscaled(sw, sh, tw, th) ==> fitted_size(sw, sh, tw, th) == (sw, sh),
        !fits_unscaled(sw, sh, tw, th) ==> {
            let (w, h) = fitted_size(sw, sh, tw, th);
            &&& w <= tw
            &&& h <= th
            &&& (w == tw && h == tw * sh / sw) || (h == th && w == th * sw / sh)
        },
{
    lemma_fitted_within_target(sw, sh, tw, th);
}

/// Both sides of a fitted size stay within the target.
proof fn lemma_fitted_within_target(sw: nat, sh: nat, tw: nat, th: nat)
    requires
        sw > 0,
        sh > 0,
    ensures
        !fits_unscaled(sw, sh, tw, th) ==> fitted_size(sw, sh, tw, th).0 <= tw
            && fitted_size(sw, sh, tw, th).1 <= th,
{
    if !fits_unscaled(sw, sh, tw, th) {
        if width_limits(sw, sh, tw, th) {
            lemma_scaled_side_bounded(tw, sh, sw, th);
        } else {
            lemma_scaled_side_bounded(th, sw, sh, tw);
        }
    }
}

/// The size at which a `sw` x `sh` picture is drawn inside a `tw` x `th`
/// target: the source size when it fits strictly inside, otherwise the
/// source scaled down by the smaller of the two ratios, truncated.
pub fn fit(sw: u32, sh: u32, tw: u32, th: u32) -> (r: (u32, u32))
    requires
        sw > 0,
        sh > 0,
    ensures
        (r.0 as nat, r.1 as nat) == fitted_size(sw as nat, sh as nat, tw as nat, th as nat),
{
    if sh < th && sw < tw {
        return (sw, sh);
    }
    proof {
        lemma_fitted_within_target(sw as nat, sh as nat, tw as nat, th as nat);
        vstd::arithmetic::mul::lemma_mul_upper_bound(tw as int, u32::MAX as int, sh as int, u32::MAX as int);
        vstd::arithmetic::mul::lemma_mul_upper_bound(th as int, u32::MAX as int, sw as int, u32::MAX as int);
    }
    let by_width: u64 = tw as u64 * sh as u64;
    let by_height: u64 = th as u64 * sw as u64;
    if by_width < by_height {
        (tw, (by_width / sw as u64) as u32)
    } else {
        ((by_height / sh as u64) as u32, th)
    }
}

/// The offset, truncated, that centres a span of `inner` inside `outer`.
pub fn center_offset(outer: u32, inner: u32) -> (r: i32)
    requires
        inner <= outer,
    ensures
        r as int == centre_offset(outer as nat, inner as nat),
        r as int == (outer - inner) / 2,
{
    ((outer - inner) / 2) as i32
}

} // verus!
