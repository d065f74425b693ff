//! Properties of the rocket's operations that hold for every rocket.
use vstd::prelude::*;

use crate::geometry::Vector2;
use crate::rocket::{fits_i64, Platform, Rocket, WINDOW_MIDDLE};

verus! {

/// The rocket after `f` has been applied `n` times in a row.
pub open spec fn with_force_times(r: Rocket, f: Vector2, n: nat) -> Rocket
    decreases n,
{
    if n == 0 {
        r
    } else {
        with_force_times(r, f, (n - 1) as nat).with_force(f)
    }
}

/// Applying the zero force any number of times, without flying, changes
/// nothing: in particular the velocity and the position stay as they were.
pub proof fn lemma_zero_force_keeps_still(r: Rocket, n: nat)
    requires
        r.weight > 0,
    ensures
        with_force_times(r, Vector2 { x: 0, y: 0 }, n) == r,
        with_force_times(r, Vector2 { x: 0, y: 0 }, n).velocity == r.velocity,
        with_force_times(r, Vector2 { x: 0, y: 0 }, n).shape == r.shape,
    decreases n,
{
    if n > 0 {
        lemma_zero_force_keeps_still(r, (n - 1) as nat);
    }
}

/// The floor check is idempotent: checking again against the same floor
/// changes neither position nor velocity nor anything else.
pub proof fn lemma_hit_ground_idempotent(r: Rocket, window_height: i64)
    requires
        fits_i64(window_height - r.shape.h),
    ensures
        r.grounded(window_height).grounded(window_height) == r.grounded(window_height),
{
}

/// At or below the landing threshold, a rocket whose left edge lies between
/// the platform's right edge and one platform width plus one rocket width
/// beyond it is in the landing zone; one further left than two platform widths
/// before the platform, or further right than that band, is not.
pub proof fn lemma_platform_zone(r: Rocket, p: Platform)
    requires
        r.shape.w >= 0,
        p.shape.w >= 0,
    ensures
        r.shape.y >= WINDOW_MIDDLE && p.shape.x + p.shape.w <= r.shape.x <= p.shape.x + 2
            * p.shape.w + r.shape.w ==> r.on_platform(p),
        r.shape.x < p.shape.x - 2 * p.shape.w ==> !r.on_platform(p),
        r.shape.x > p.shape.x + 2 * p.shape.w + r.shape.w ==> !r.on_platform(p),
{
}

} // verus!
