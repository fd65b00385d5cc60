//! The adaptive zoom-speed shaping: a camera-to-target distance is clamped to
//! the configured operating range, normalized, eased with a smoothstep curve,
//! and scaled into a zoom speed with a small positive floor.
//!
//! Everything is fixed-point arithmetic: a value of [`SCALE`] stands for one
//! whole unit, so `251` stands for `0.251`.

use vstd::arithmetic::div_mod::{lemma_basic_div, lemma_div_is_ordered, lemma_div_multiples_vanish};
use vstd::prelude::*;

verus! {

/// Fixed-point units per whole unit.
pub const SCALE: u64 = 1000;

/// Floor added to every computed zoom speed (`0.001` in whole units), so the
/// speed stays strictly positive even at the lower distance bound.
pub const SPEED_FLOOR: u64 = 1;

/// Largest admissible distance bound, chosen so that shaping a distance never
/// overflows a `u64` (`MAX_DISTANCE * SCALE < u64::MAX`).
pub const MAX_DISTANCE: u64 = 0xffff_ffff_ffff;

/// `x` clamped to the closed interval `[lo, hi]`.
pub open spec fn clamped(x: int, lo: int, hi: int) -> int {
    if x < lo {
        lo
    } else if x > hi {
        hi
    } else {
        x
    }
}

/// Normalized position of `distance` inside `[min, max]`, in fixed point:
/// `0` at or below `min`, `SCALE` at or above `max`.
pub open spec fn shape_t(distance: int, min: int, max: int) -> int
    recommends
        min < max,
{
    (clamped(distance, min, max) - min) * (SCALE as int) / (max - min)
}

/// Numerator of the smoothstep curve at `t`: the cubic `t²·(3·SCALE − 2t)`,
/// still carrying a factor of `SCALE²`.
pub open spec fn ease_num(t: int) -> int {
    t * t * (3 * (SCALE as int) - 2 * t)
}

/// The smoothstep ease of a normalized `t`, back in fixed point:
/// `t²·(3 − 2t)` for `t` read as a fraction of `SCALE`.
pub open spec fn eased(t: int) -> int {
    ease_num(t) / ((SCALE as int) * (SCALE as int))
}

/// The zoom speed for a camera at `distance` from the target under bounds
/// `[min, max]`: half the eased, normalized distance, plus the floor.
pub open spec fn zoom_speed_of(distance: int, min: int, max: int) -> int
    recommends
        min < max,
{
    eased(shape_t(distance, min, max)) / 2 + SPEED_FLOOR as int
}

/// The normalized position always lies in `[0, SCALE]`.
pub proof fn lemma_shape_t_bounds(distance: int, min: int, max: int)
    requires
        min < max,
    ensures
        0 <= shape_t(distance, min, max) <= SCALE as int,
{
    let s = SCALE as int;
    let w = max - min;
    let n = (clamped(distance, min, max) - min) * s;
    assert(0 <= n <= w * s);
    lemma_div_multiples_vanish(0, w);
    lemma_div_is_ordered(0, n, w);
    lemma_div_multiples_vanish(s, w);
    lemma_div_is_ordered(n, w * s, w);
}

/// The smoothstep numerator is non-decreasing on `[0, SCALE]`.
pub proof fn lemma_ease_num_monotonic(a: int, b: int)
    requires
        0 <= a <= b <= SCALE as int,
    ensures
        ease_num(a) <= ease_num(b),
{
    let s = SCALE as int;
    assert(b * b * (3 * s - 2 * b) - a * a * (3 * s - 2 * a) == (b - a) * (3 * s * (a + b) - 2 * (
    a * a + a * b + b * b))) by (nonlinear_arith);
    assert((b - a) * (3 * s * (a + b) - 2 * (a * a + a * b + b * b)) >= 0) by (nonlinear_arith)
        requires
            0 <= a <= b <= s,
    ;
}

/// The ease of a normalized `t` lies in `[0, SCALE]`.
pub proof fn lemma_eased_bounds(t: int)
    requires
        0 <= t <= SCALE as int,
    ensures
        0 <= eased(t) <= SCALE as int,
{
    lemma_ease_num_monotonic(0, t);
    lemma_ease_num_monotonic(t, SCALE as int);
}

/// The ease numerator, the squared scale, and the eased value evaluated at
/// the ends and the middle of the normalized range.
proof fn lemma_ease_key_values()
    ensures
        (SCALE as int) * (SCALE as int) == 1_000_000,
        ease_num(0) == 0,
        ease_num(500) == 500_000_000,
        ease_num(1000) == 1_000_000_000,
        eased(0) == 0,
        eased(500) == 500,
        eased(1000) == 1000,
{
    let s = SCALE as int;
    assert(s * s == 1_000_000) by (nonlinear_arith)
        requires
            s == 1000,
    ;
    assert(0 * 0 * (3 * s - 2 * 0) == 0) by (nonlinear_arith);
    assert(500 * 500 * (3 * s - 2 * 500) == 500_000_000) by (nonlinear_arith)
        requires
            s == 1000,
    ;
    assert(s * s * (3 * s - 2 * s) == 1_000_000_000) by (nonlinear_arith)
        requires
            s == 1000,
    ;
    assert(ease_num(1000) == s * s * (3 * s - 2 * s));
    lemma_div_multiples_vanish(0, 1_000_000);
    lemma_div_multiples_vanish(500, 1_000_000);
    lemma_div_multiples_vanish(1000, 1_000_000);
    assert(1_000_000 * 500 == 500_000_000) by (nonlinear_arith);
    assert(1_000_000 * 1000 == 1_000_000_000) by (nonlinear_arith);
    assert(1_000_000 * 0 == 0) by (nonlinear_arith);
}

/// At or below the lower distance bound the zoom speed is exactly the floor.
pub proof fn lemma_speed_at_or_below_min(distance: int, min: int, max: int)
    requires
        min < max,
        distance <= min,
    ensures
        shape_t(distance, min, max) == 0,
        zoom_speed_of(distance, min, max) == SPEED_FLOOR as int,
{
    let w = max - min;
    assert(clamped(distance, min, max) == min);
    lemma_div_multiples_vanish(0, w);
    assert((min - min) * (SCALE as int) == w * 0);
    lemma_ease_key_values();
}

/// At or above the upper distance bound the zoom speed is exactly
/// `SCALE / 2 + SPEED_FLOOR` (that is, `0.5 + 0.001` in whole units).
pub proof fn lemma_speed_at_or_above_max(distance: int, min: int, max: int)
    requires
        min < max,
        distance >= max,
    ensures
        shape_t(distance, min, max) == SCALE as int,
        zoom_speed_of(distance, min, max) == SCALE as int / 2 + SPEED_FLOOR as int,
{
    let s = SCALE as int;
    let w = max - min;
    assert(clamped(distance, min, max) == max);
    lemma_div_multiples_vanish(s, w);
    assert((max - min) * s == w * s);
    lemma_ease_key_values();
}

/// At the exact middle of the distance range the normalized position is
/// `1/2`, the ease is `1/2`, and the zoom speed is `1/4 + SPEED_FLOOR`
/// (all in fixed point). Stated for ranges of even width, where the integer
/// midpoint is exact.
pub proof fn lemma_speed_at_midpoint(min: int, max: int)
    requires
        min < max,
        (max - min) % 2 == 0,
    ensures
        shape_t((min + max) / 2, min, max) == SCALE as int / 2,
        eased(SCALE as int / 2) == SCALE as int / 2,
        zoom_speed_of((min + max) / 2, min, max) == SCALE as int / 4 + SPEED_FLOOR as int,
{
    let s = SCALE as int;
    let w = max - min;
    let h = w / 2;
    let d = (min + max) / 2;
    assert(w == 2 * h);
    assert(d == min + h);
    assert(clamped(d, min, max) == d);
    lemma_div_multiples_vanish(s / 2, w);
    assert((d - min) * s == w * (s / 2));
    lemma_ease_key_values();
}

/// The zoom speed is non-decreasing in the camera-to-target distance.
pub proof fn lemma_speed_monotonic(d1: int, d2: int, min: int, max: int)
    requires
        min < max,
        d1 <= d2,
    ensures
        zoom_speed_of(d1, min, max) <= zoom_speed_of(d2, min, max),
{
    let s = SCALE as int;
    let w = max - min;
    let n1 = (clamped(d1, min, max) - min) * s;
    let n2 = (clamped(d2, min, max) - min) * s;
    assert(n1 <= n2);
    lemma_div_is_ordered(n1, n2, w);
    let t1 = shape_t(d1, min, max);
    let t2 = shape_t(d2, min, max);
    lemma_shape_t_bounds(d1, min, max);
    lemma_shape_t_bounds(d2, min, max);
    lemma_ease_num_monotonic(t1, t2);
    lemma_div_is_ordered(ease_num(t1), ease_num(t2), s * s);
    lemma_div_is_ordered(eased(t1), eased(t2), 2);
}

/// Smoothness at the ends of the range: stepping `h` away from either end
/// changes the ease numerator by `h²·(3·SCALE − 2h)` — quadratic in `h`, so
/// the curve leaves both ends with vanishing slope — while the symmetric
/// difference around the middle of the range is `h·(3·SCALE² − 4h²)`,
/// linear in `h`. (The ease numerator is the eased value scaled by `SCALE²`.)
pub proof fn lemma_ease_num_flat_at_boundaries(h: int)
    requires
        0 <= h <= SCALE as int,
    ensures
        ease_num(h) - ease_num(0) == h * h * (3 * SCALE as int - 2 * h),
        ease_num(SCALE as int) - ease_num(SCALE as int - h) == h * h * (3 * SCALE as int - 2
            * h),
        ease_num(SCALE as int / 2 + h) - ease_num(SCALE as int / 2 - h) == h * (3 * SCALE as int
            * SCALE as int - 4 * h * h),
{
    let s = SCALE as int;
    assert(ease_num(s - h) == (s - h) * (s - h) * (3 * s - 2 * (s - h)));
    assert(s * s * (3 * s - 2 * s) - (s - h) * (s - h) * (3 * s - 2 * (s - h)) == h * h * (3 * s
        - 2 * h)) by (nonlinear_arith);
    assert(ease_num(s / 2 + h) == (s / 2 + h) * (s / 2 + h) * (3 * s - 2 * (s / 2 + h)));
    assert(ease_num(s / 2 - h) == (s / 2 - h) * (s / 2 - h) * (3 * s - 2 * (s / 2 - h)));
    assert((500 + h) * (500 + h) * (3000 - 2 * (500 + h)) - (500 - h) * (500 - h) * (3000 - 2 * (
    500 - h)) == h * (3 * 1000 * 1000 - 4 * h * h)) by (nonlinear_arith);
}

/// Near the bounds the ease curve changes more slowly than at the middle of
/// the range: for steps of up to half the range, the finite difference at
/// either boundary never exceeds the symmetric difference at the midpoint.
pub proof fn lemma_ease_num_flatter_at_boundaries(h: int)
    requires
        0 <= h <= SCALE as int / 2,
    ensures
        ease_num(h) - ease_num(0) <= ease_num(SCALE as int / 2 + h) - ease_num(
            SCALE as int / 2 - h,
        ),
        ease_num(SCALE as int) - ease_num(SCALE as int - h) <= ease_num(SCALE as int / 2 + h)
            - ease_num(SCALE as int / 2 - h),
{
    lemma_ease_num_flat_at_boundaries(h);
    assert(h * h * (3 * 1000 - 2 * h) <= h * (3 * 1000 * 1000 - 4 * h * h)) by (nonlinear_arith)
        requires
            0 <= h <= 500,
    ;
}

/// The flatness at the ends as seen in the fixed-point output itself: a step
/// of up to 18 units away from the lower end leaves the eased value at 0,
/// and away from the upper end moves it by at most 1 — while from end to end
/// the curve climbs the full `SCALE`.
pub proof fn lemma_eased_flat_at_boundaries(h: int)
    requires
        0 <= h <= 18,
    ensures
        eased(h) == 0,
        eased(SCALE as int) - eased(SCALE as int - h) <= 1,
        eased(SCALE as int) - eased(0) == SCALE as int,
{
    let s = SCALE as int;
    lemma_ease_key_values();
    lemma_ease_num_monotonic(0, h);
    lemma_ease_num_monotonic(h, 18);
    assert(18 * 18 * (3 * s - 2 * 18) == 960_336) by (nonlinear_arith)
        requires
            s == 1000,
    ;
    assert(ease_num(18) == 18 * 18 * (3 * s - 2 * 18));
    lemma_basic_div(ease_num(h), 1_000_000);
    lemma_ease_num_monotonic(982, s - h);
    lemma_ease_num_monotonic(s - h, s);
    assert(982 * 982 * (3 * s - 2 * 982) == 999_039_664) by (nonlinear_arith)
        requires
            s == 1000,
    ;
    assert(ease_num(982) == 982 * 982 * (3 * s - 2 * 982));
    lemma_div_multiples_vanish(999, 1_000_000);
    assert(1_000_000 * 999 == 999_000_000) by (nonlinear_arith);
    lemma_div_is_ordered(999_000_000, ease_num(s - h), 1_000_000);
    lemma_div_is_ordered(ease_num(s - h), ease_num(s), 1_000_000);
}

/// Computes the smoothstep ease of `x` over the edges `[edge0, edge1]`:
/// `x` is clamped to the edges, normalized to `[0, SCALE]`, and shaped by
/// the cubic `t²·(3 − 2t)`, all in fixed point.
pub fn smoothstep(edge0: u64, edge1: u64, x: u64) -> (r: u64)
    requires
        edge0 < edge1,
        edge1 <= MAX_DISTANCE,
    ensures
        r == eased(shape_t(x as int, edge0 as int, edge1 as int)),
        r <= SCALE,
{
    let clamped_x: u64 = if x < edge0 {
        edge0
    } else if x > edge1 {
        edge1
    } else {
        x
    };
    let width: u64 = edge1 - edge0;
    let t: u64 = (clamped_x - edge0) * SCALE / width;
    proof {
        lemma_shape_t_bounds(x as int, edge0 as int, edge1 as int);
        assert(t as int == shape_t(x as int, edge0 as int, edge1 as int));
        lemma_eased_bounds(t as int);
        assert(t * t <= 1_000_000) by (nonlinear_arith)
            requires
                t <= 1000,
        ;
        assert(t * t * (3 * SCALE - 2 * t) <= 3_000_000_000) by (nonlinear_arith)
            requires
                t <= 1000 && t * t <= 1_000_000,
        ;
    }
    t * t * (3 * SCALE - 2 * t) / (SCALE * SCALE)
}

/// Computes the zoom speed for a camera at `distance` from the target under
/// the distance bounds `[min, max]`: half the smoothstep-eased normalized
/// distance plus the floor, so the result lies in
/// `[SPEED_FLOOR, SCALE / 2 + SPEED_FLOOR]`.
pub fn zoom_speed(min: u64, max: u64, distance: u64) -> (speed: u64)
    requires
        min < max,
        max <= MAX_DISTANCE,
    ensures
        speed == zoom_speed_of(distance as int, min as int, max as int),
        SPEED_FLOOR <= speed <= SCALE / 2 + SPEED_FLOOR,
{
    proof {
        lemma_shape_t_bounds(distance as int, min as int, max as int);
        lemma_eased_bounds(shape_t(distance as int, min as int, max as int));
    }
    let e = smoothstep(min, max, distance);
    e / 2 + SPEED_FLOOR
}

} // verus!
