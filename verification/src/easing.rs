//! The easing curve of a transition, in exact arithmetic.
//!
//! A transition of `frames` frames samples the ease-in-out cubic curve
//!
//! ```text
//! y(t) = 4 t^3              for t < 1/2
//! y(t) = 1 - 4 (1 - t)^3    otherwise
//! ```
//!
//! at the times `t = frame / frames`. Every sample is a fraction with the
//! denominator `frames^3`, so the level of a frame, rounded toward the
//! target, is a quotient of integers and nothing is lost to rounding error.

use vstd::prelude::*;
use vstd::arithmetic::div_mod::{
    lemma_div_is_ordered,
    lemma_div_multiples_vanish_fancy,
    lemma_fundamental_div_mod,
};
use vstd::arithmetic::mul::{lemma_mul_inequality, lemma_mul_is_commutative};
use crate::level::{is_level, MAX_BRIGHTNESS};

verus! {

/// The largest number of frames that a transition can have.
pub const MAX_FRAMES: u64 = 0x80_0000_0000;

pub open spec fn cube(x: int) -> int {
    x * x * x
}

/// The ease-in-out cubic curve at the time `frame / frames`, as the
/// numerator of a fraction whose denominator is `cube(frames)`.
pub open spec fn ease_in_out_cubic(frame: int, frames: int) -> int {
    if 2 * frame < frames {
        4 * cube(frame)
    } else {
        cube(frames) - 4 * cube(frames - frame)
    }
}

/// The quotient of `a` by `d`, rounded up.
pub open spec fn div_ceil(a: int, d: int) -> int {
    (a + d - 1) / d
}

/// The level of a frame: the point on the curve between `from` and `to` at
/// the time `frame / frames`, rounded toward the target, which is up when
/// the level rises and down when it falls.
pub open spec fn eased_level(from: int, to: int, frame: int, frames: int) -> int {
    if from <= to {
        from + div_ceil((to - from) * ease_in_out_cubic(frame, frames), cube(frames))
    } else {
        from - div_ceil((from - to) * ease_in_out_cubic(frame, frames), cube(frames))
    }
}

proof fn lemma_cube_monotone(a: int, b: int)
    requires
        0 <= a <= b,
    ensures
        0 <= a * a <= b * b,
        0 <= cube(a) <= cube(b),
{
    assert(0 <= a * a <= b * b) by (nonlinear_arith)
        requires
            0 <= a <= b,
    ;
    assert(0 <= a * a * a <= b * b * b) by (nonlinear_arith)
        requires
            0 <= a <= b,
            0 <= a * a <= b * b,
    ;
}

proof fn lemma_cube_positive(n: int)
    requires
        1 <= n,
    ensures
        1 <= cube(n),
{
    lemma_cube_monotone(1, n);
}

proof fn lemma_cube_of_half(a: int, n: int)
    requires
        0 <= a,
        2 * a <= n,
    ensures
        8 * cube(a) <= cube(n),
{
    lemma_cube_monotone(2 * a, n);
    assert((2 * a) * (2 * a) * (2 * a) == 8 * (a * a * a)) by (nonlinear_arith);
}

proof fn lemma_cube_fits(n: int)
    requires
        0 <= n <= MAX_FRAMES,
    ensures
        n * n <= 0x4000_0000_0000_0000_0000,
        cube(n) <= 0x20_0000_0000_0000_0000_0000_0000_0000,
{
    lemma_cube_monotone(n, MAX_FRAMES as int);
    assert(0x80_0000_0000int * 0x80_0000_0000int == 0x4000_0000_0000_0000_0000int)
        by (nonlinear_arith);
    assert(0x4000_0000_0000_0000_0000int * 0x80_0000_0000int
        == 0x20_0000_0000_0000_0000_0000_0000_0000int) by (nonlinear_arith);
}

/// The curve starts at 0, ends at 1 and stays between the two.
pub proof fn lemma_curve_bounds(frame: int, frames: int)
    requires
        0 <= frame <= frames,
        1 <= frames,
    ensures
        1 <= cube(frames),
        0 <= ease_in_out_cubic(frame, frames) <= cube(frames),
        ease_in_out_cubic(0, frames) == 0,
        ease_in_out_cubic(frames, frames) == cube(frames),
{
    lemma_cube_positive(frames);
    if 2 * frame < frames {
        lemma_cube_monotone(0, frame);
        lemma_cube_of_half(frame, frames);
    } else {
        lemma_cube_monotone(0, frames - frame);
        lemma_cube_of_half(frames - frame, frames);
    }
    assert(cube(0) == 0);
}

/// The curve never falls as time goes on.
pub proof fn lemma_curve_monotone(earlier: int, later: int, frames: int)
    requires
        0 <= earlier <= later <= frames,
        1 <= frames,
    ensures
        ease_in_out_cubic(earlier, frames) <= ease_in_out_cubic(later, frames),
{
    if 2 * later < frames {
        lemma_cube_monotone(earlier, later);
    } else if 2 * earlier < frames {
        lemma_cube_of_half(earlier, frames);
        lemma_cube_of_half(frames - later, frames);
    } else {
        lemma_cube_monotone(frames - later, frames - earlier);
    }
}

/// Rounding up gives the least integer that is not below the fraction.
pub proof fn lemma_div_ceil_is_least(a: int, d: int)
    requires
        0 < d,
    ensures
        (div_ceil(a, d) - 1) * d < a <= div_ceil(a, d) * d,
{
    let q = div_ceil(a, d);
    lemma_fundamental_div_mod(a + d - 1, d);
    lemma_mul_is_commutative(d, q);
    assert((q - 1) * d == q * d - d) by (nonlinear_arith);
}

proof fn lemma_div_ceil_monotone(a: int, b: int, d: int)
    requires
        a <= b,
        0 < d,
    ensures
        div_ceil(a, d) <= div_ceil(b, d),
{
    lemma_div_is_ordered(a + d - 1, b + d - 1, d);
}

proof fn lemma_div_ceil_exact(k: int, d: int)
    requires
        0 < d,
    ensures
        div_ceil(k * d, d) == k,
{
    lemma_mul_is_commutative(k, d);
    lemma_div_multiples_vanish_fancy(k, d - 1, d);
}

/// The rounded part of a frame's level: how far the level of the frame is
/// from `from`, for a distance of `delta` between the two ends.
proof fn lemma_offset_bounds(delta: int, frame: int, frames: int)
    requires
        0 <= delta,
        0 <= frame <= frames,
        1 <= frames,
    ensures
        0 <= delta * ease_in_out_cubic(frame, frames) <= delta * cube(frames),
        0 <= div_ceil(delta * ease_in_out_cubic(frame, frames), cube(frames)) <= delta,
{
    let num = ease_in_out_cubic(frame, frames);
    let den = cube(frames);
    lemma_curve_bounds(frame, frames);
    lemma_mul_inequality(0, num, delta);
    lemma_mul_inequality(num, den, delta);
    lemma_mul_is_commutative(delta, num);
    lemma_mul_is_commutative(delta, den);
    assert(0 * delta == 0);
    lemma_div_ceil_monotone(0, delta * num, den);
    lemma_div_ceil_monotone(delta * num, delta * den, den);
    lemma_div_ceil_exact(0, den);
    lemma_div_ceil_exact(delta, den);
    assert(0 * den == 0);
}

/// At time 0 the level is the one the transition starts from.
pub proof fn lemma_ease_starts_at_from(from: int, to: int, frames: int)
    requires
        1 <= frames,
    ensures
        eased_level(from, to, 0, frames) == from,
{
    let den = cube(frames);
    lemma_curve_bounds(0, frames);
    assert((to - from) * 0 == 0);
    assert((from - to) * 0 == 0);
    assert(0 * den == 0);
    lemma_div_ceil_exact(0, den);
}

/// At time 1, which is the last frame, the level is exactly the target.
pub proof fn lemma_ease_lands_on_target(from: int, to: int, frames: int)
    requires
        1 <= frames,
    ensures
        eased_level(from, to, frames, frames) == to,
{
    let den = cube(frames);
    lemma_curve_bounds(frames, frames);
    lemma_div_ceil_exact(to - from, den);
    lemma_div_ceil_exact(from - to, den);
}

/// The first frame of a transition between two different levels already
/// leaves the level it starts from.
pub proof fn lemma_ease_leaves_start_at_once(from: int, to: int, frames: int)
    requires
        1 <= frames,
        from != to,
    ensures
        from < to ==> eased_level(from, to, 1, frames) > from,
        from > to ==> eased_level(from, to, 1, frames) < from,
{
    let den = cube(frames);
    let num = ease_in_out_cubic(1, frames);
    let delta = if from < to {
        to - from
    } else {
        from - to
    };
    lemma_cube_positive(frames);
    assert(cube(1) == 1) by (nonlinear_arith);
    assert(cube(0) == 0) by (nonlinear_arith);
    if frames == 2 {
        assert(cube(2) == 8) by (nonlinear_arith);
    }
    assert(num >= 1);
    assert(delta * num >= 1) by (nonlinear_arith)
        requires
            delta >= 1,
            num >= 1,
    ;
    lemma_div_ceil_is_least(delta * num, den);
    let q = div_ceil(delta * num, den);
    assert(q >= 1) by (nonlinear_arith)
        requires
            q * den >= 1,
            den >= 1,
    ;
}

/// No frame leaves the range between the two ends of the transition: the
/// rounding never carries a level past the target.
pub proof fn lemma_ease_never_overshoots(from: int, to: int, frame: int, frames: int)
    requires
        0 <= frame <= frames,
        1 <= frames,
    ensures
        from <= to ==> from <= eased_level(from, to, frame, frames) <= to,
        from >= to ==> to <= eased_level(from, to, frame, frames) <= from,
{
    if from <= to {
        lemma_offset_bounds(to - from, frame, frames);
    } else {
        lemma_offset_bounds(from - to, frame, frames);
    }
}

/// The levels of a rising transition never fall from one frame to a later
/// one, and those of a falling transition never rise.
pub proof fn lemma_ease_is_monotone(from: int, to: int, earlier: int, later: int, frames: int)
    requires
        0 <= earlier <= later <= frames,
        1 <= frames,
    ensures
        from <= to ==> eased_level(from, to, earlier, frames) <= eased_level(
            from,
            to,
            later,
            frames,
        ),
        from >= to ==> eased_level(from, to, earlier, frames) >= eased_level(
            from,
            to,
            later,
            frames,
        ),
{
    let den = cube(frames);
    let delta = if from <= to {
        to - from
    } else {
        from - to
    };
    let a = ease_in_out_cubic(earlier, frames);
    let b = ease_in_out_cubic(later, frames);
    lemma_cube_positive(frames);
    lemma_curve_monotone(earlier, later, frames);
    lemma_mul_inequality(a, b, delta);
    lemma_mul_is_commutative(delta, a);
    lemma_mul_is_commutative(delta, b);
    lemma_div_ceil_monotone(delta * a, delta * b, den);
    if from == to {
        assert(delta * a == 0 && delta * b == 0) by (nonlinear_arith)
            requires
                delta == 0,
        ;
    }
}

/// The level of a frame is the point on the curve rounded toward the
/// target: for a rising transition the least level that is not below the
/// point, for a falling one the greatest level that is not above it. Both
/// sides of each comparison are scaled by `cube(frames)`.
pub proof fn lemma_ease_rounds_toward_target(from: int, to: int, frame: int, frames: int)
    requires
        0 <= frame <= frames,
        1 <= frames,
    ensures
        from <= to ==> {
            let level = eased_level(from, to, frame, frames);
            let point = from * cube(frames) + (to - from) * ease_in_out_cubic(frame, frames);
            (level - 1) * cube(frames) < point <= level * cube(frames)
        },
        from > to ==> {
            let level = eased_level(from, to, frame, frames);
            let point = from * cube(frames) - (from - to) * ease_in_out_cubic(frame, frames);
            level * cube(frames) <= point < (level + 1) * cube(frames)
        },
{
    let den = cube(frames);
    let num = ease_in_out_cubic(frame, frames);
    lemma_cube_positive(frames);
    if from <= to {
        let q = div_ceil((to - from) * num, den);
        lemma_div_ceil_is_least((to - from) * num, den);
        assert((from + q - 1) * den == from * den + (q - 1) * den) by (nonlinear_arith);
        assert((from + q) * den == from * den + q * den) by (nonlinear_arith);
    } else {
        let q = div_ceil((from - to) * num, den);
        lemma_div_ceil_is_least((from - to) * num, den);
        assert((from - q + 1) * den == from * den - (q - 1) * den) by (nonlinear_arith);
        assert((from - q) * den == from * den - q * den) by (nonlinear_arith);
    }
}

/// Computes the level of one frame of a transition from `from` to `to` in
/// `frames` frames. Frame 0 is the start, frame `frames` the end.
pub fn ease(from: u16, to: u16, frame: u64, frames: u64) -> (level: u16)
    requires
        is_level(from as int),
        is_level(to as int),
        1 <= frames <= MAX_FRAMES,
        frame <= frames,
    ensures
        level == eased_level(from as int, to as int, frame as int, frames as int),
        is_level(level as int),
        from <= to ==> from <= level <= to,
        from >= to ==> to <= level <= from,
{
    let n: u128 = frames as u128;
    let i: u128 = frame as u128;
    proof {
        lemma_cube_fits(n as int);
        lemma_cube_monotone(i as int, n as int);
        lemma_cube_positive(n as int);
        lemma_curve_bounds(i as int, n as int);
        lemma_ease_never_overshoots(from as int, to as int, i as int, n as int);
    }
    let den: u128 = n * n * n;
    let num: u128 = if 2 * i < n {
        let c: u128 = i * i * i;
        4 * c
    } else {
        let r: u128 = n - i;
        proof {
            lemma_cube_monotone(r as int, n as int);
            lemma_cube_of_half(r as int, n as int);
        }
        let c: u128 = r * r * r;
        den - 4 * c
    };
    assert(num == ease_in_out_cubic(i as int, n as int));
    if from <= to {
        let delta: u128 = (to - from) as u128;
        proof {
            lemma_offset_bounds(delta as int, i as int, n as int);
            lemma_mul_inequality(delta as int, 100, den as int);
        }
        let up: u128 = (delta * num + den - 1) / den;
        from + up as u16
    } else {
        let delta: u128 = (from - to) as u128;
        proof {
            lemma_offset_bounds(delta as int, i as int, n as int);
            lemma_mul_inequality(delta as int, 100, den as int);
        }
        let down: u128 = (delta * num + den - 1) / den;
        from - down as u16
    }
}

} // verus!
