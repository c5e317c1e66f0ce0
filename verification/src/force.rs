//! Resistive forces acting on the car.
//!
//! Velocities are in micro-metres per second, weights in kilogrammes, forces
//! in milli-newtons.  The road grade enters as the sine of the grade angle in
//! micro (so a level road is 0 and a vertical wall is 1_000_000); computing
//! that sine from an angle is left to the caller.

use vstd::prelude::*;

use crate::fixed::{div_trunc, div_trunc_i128, mul_wide};

verus! {

/// Standard gravity in milli-metres per second squared (9.81 m/s^2).
pub const GRAVITY_MILLI: u64 = 9_810;

/// Air density in milli-kilogrammes per cubic metre (1.225 kg/m^3).
pub const AIR_DENSITY_MILLI: u64 = 1_225;

/// Drag coefficient in milli (0.208).
pub const DRAG_COEFFICIENT_MILLI: u64 = 208;

/// Frontal area in milli-square-metres (2.5 m^2).
pub const FRONTAL_AREA_MILLI: u64 = 2_500;

/// Rolling resistance coefficient in milli (0.01).
pub const ROLLING_COEFFICIENT_MILLI: u64 = 10;

/// Combined drag numerator: half the product of air density, drag
/// coefficient and frontal area, in their milli scales.
pub const DRAG_NUMERATOR: u64 = AIR_DENSITY_MILLI * DRAG_COEFFICIENT_MILLI * FRONTAL_AREA_MILLI
    / 2;

/// Scale divisor that returns the drag product to milli-newtons.
pub const DRAG_SCALE: u128 = 1_000_000_000_000_000_000;

/// Aerodynamic drag in milli-newtons: half rho Cd A v^2.
pub open spec fn drag_force_milli(velocity_micro_ms: int) -> int {
    velocity_micro_ms * velocity_micro_ms * (DRAG_NUMERATOR as int) / (DRAG_SCALE as int)
}

/// Grade-induced force in milli-newtons: weight times gravity times the sine
/// of the grade angle.  Positive uphill, negative downhill.
pub open spec fn gradient_force_milli(weight_kg: int, grade_sin_micro: int) -> int {
    div_trunc(weight_kg * (GRAVITY_MILLI as int) * grade_sin_micro, 1_000_000)
}

/// Rolling resistance in milli-newtons: the rolling coefficient times weight
/// times gravity.
pub open spec fn rolling_force_milli(weight_kg: int) -> int {
    (ROLLING_COEFFICIENT_MILLI as int) * weight_kg * (GRAVITY_MILLI as int) / 1_000
}

/// Aerodynamic drag on a car moving at the given velocity.
pub fn f_drag(velocity_micro_ms: i64) -> (r: i64)
    requires
        -2_000_000_000 <= velocity_micro_ms <= 2_000_000_000,
    ensures
        r == drag_force_milli(velocity_micro_ms as int),
        0 <= r <= 1_274_000_000,
{
    let v: i64 = velocity_micro_ms;
    let sq: i128 = mul_wide(v, v);
    proof {
        assert(0 <= (v as int) * (v as int) <= 4_000_000_000_000_000_000) by (nonlinear_arith)
            requires
                -2_000_000_000 <= v <= 2_000_000_000,
        ;
        assert(0 <= (sq as int) * (DRAG_NUMERATOR as int)
            <= 1_274_000_000_000_000_000_000_000_000int) by (nonlinear_arith)
            requires
                0 <= sq <= 4_000_000_000_000_000_000,
                DRAG_NUMERATOR == 318_500_000,
        ;
    }
    let scaled: u128 = (sq as u128) * (DRAG_NUMERATOR as u128);
    let q: u128 = scaled / DRAG_SCALE;
    proof {
        assert(1_274_000_000int * (DRAG_SCALE as int)
            == 1_274_000_000_000_000_000_000_000_000int) by (nonlinear_arith)
            requires
                DRAG_SCALE == 1_000_000_000_000_000_000,
        ;
        crate::fixed::lemma_div_trunc_quotient_bound(scaled as int, DRAG_SCALE as int,
            1_274_000_000);
    }
    q as i64
}

/// Grade force on a car of the given weight on a road whose grade angle has
/// the given sine.
pub fn f_gradient(weight_kg: u64, grade_sin_micro: i64) -> (r: i64)
    requires
        weight_kg <= 1_000_000,
        -1_000_000 <= grade_sin_micro <= 1_000_000,
    ensures
        r == gradient_force_milli(weight_kg as int, grade_sin_micro as int),
        -9_810_000_000 <= r <= 9_810_000_000,
        grade_sin_micro >= 0 ==> r >= 0,
        grade_sin_micro <= 0 ==> r <= 0,
{
    let wg: u64 = weight_kg * GRAVITY_MILLI;
    let scaled: i128 = mul_wide(wg as i64, grade_sin_micro);
    proof {
        assert(-(9_810_000_000_000_000int) <= (wg as int) * (grade_sin_micro as int)
            <= 9_810_000_000_000_000int) by (nonlinear_arith)
            requires
                0 <= wg <= 9_810_000_000,
                -1_000_000 <= grade_sin_micro <= 1_000_000,
        ;
    }
    let q: i128 = div_trunc_i128(scaled, 1_000_000);
    proof {
        crate::fixed::lemma_div_trunc_quotient_bound(scaled as int, 1_000_000, 9_810_000_000);
        if grade_sin_micro >= 0 {
            assert((wg as int) * (grade_sin_micro as int) >= 0) by (nonlinear_arith)
                requires
                    wg >= 0,
                    grade_sin_micro >= 0,
            ;
            crate::fixed::lemma_div_trunc_ordered(0, scaled as int, 1_000_000);
        } else {
            assert((wg as int) * (grade_sin_micro as int) <= 0) by (nonlinear_arith)
                requires
                    wg >= 0,
                    grade_sin_micro <= 0,
            ;
            crate::fixed::lemma_div_trunc_ordered(scaled as int, 0, 1_000_000);
        }
    }
    q as i64
}

/// Rolling resistance on a car of the given weight.  Callers apply it only
/// while the car is moving forward.
pub fn f_rolling(weight_kg: u64) -> (r: i64)
    requires
        weight_kg <= 1_000_000,
    ensures
        r == rolling_force_milli(weight_kg as int),
        0 <= r <= 98_100_000,
{
    let scaled: u64 = ROLLING_COEFFICIENT_MILLI * weight_kg * GRAVITY_MILLI;
    let q: u64 = scaled / 1_000;
    q as i64
}

/// Drag vanishes at standstill.
pub proof fn lemma_drag_zero()
    ensures
        drag_force_milli(0) == 0,
{
    assert(0int * 0int * (DRAG_NUMERATOR as int) == 0int);
    assert(0int / (DRAG_SCALE as int) == 0);
}

/// Drag depends only on speed, not on the direction of travel.
pub proof fn lemma_drag_symmetric(v: int)
    ensures
        drag_force_milli(v) == drag_force_milli(-v),
{
    assert(v * v == (-v) * (-v)) by (nonlinear_arith);
}

/// Drag never pushes the car: it is non-negative for every velocity.
pub proof fn lemma_drag_nonnegative(v: int)
    ensures
        drag_force_milli(v) >= 0,
{
    assert(v * v >= 0) by (nonlinear_arith);
    crate::fixed::lemma_div_shrinks(v * v * (DRAG_NUMERATOR as int), DRAG_SCALE as int);
}

/// Drag is monotone in speed: a faster car never sees less drag.
pub proof fn lemma_drag_monotone(v1: int, v2: int)
    requires
        0 <= v1 <= v2,
    ensures
        drag_force_milli(v1) <= drag_force_milli(v2),
{
    assert(v1 * v1 * (DRAG_NUMERATOR as int) <= v2 * v2 * (DRAG_NUMERATOR as int))
        by (nonlinear_arith)
        requires
            0 <= v1 <= v2,
    ;
    crate::fixed::lemma_div_trunc_ordered(
        v1 * v1 * (DRAG_NUMERATOR as int),
        v2 * v2 * (DRAG_NUMERATOR as int),
        DRAG_SCALE as int,
    );
    assert(v1 * v1 * (DRAG_NUMERATOR as int) >= 0) by (nonlinear_arith);
    assert(v2 * v2 * (DRAG_NUMERATOR as int) >= 0) by (nonlinear_arith);
}

/// Drag grows strictly once the squared-velocity gap crosses one scale unit.
/// (At the micro resolution of the fixed-point model, two velocities whose
/// squares are closer than that can share a drag value.)
pub proof fn lemma_drag_strictly_increasing(v1: int, v2: int)
    requires
        0 <= v1 < v2,
        v2 * v2 * (DRAG_NUMERATOR as int) >= v1 * v1 * (DRAG_NUMERATOR as int) + (
        DRAG_SCALE as int),
    ensures
        drag_force_milli(v1) < drag_force_milli(v2),
{
    assert(v1 * v1 * (DRAG_NUMERATOR as int) >= 0) by (nonlinear_arith);
    assert(v1 * v1 * (DRAG_NUMERATOR as int) / (DRAG_SCALE as int) < v2 * v2 * (
    DRAG_NUMERATOR as int) / (DRAG_SCALE as int)) by (nonlinear_arith)
        requires
            v1 * v1 * (DRAG_NUMERATOR as int) >= 0,
            v2 * v2 * (DRAG_NUMERATOR as int) >= v1 * v1 * (DRAG_NUMERATOR as int) + (
            DRAG_SCALE as int),
    ;
}

} // verus!
