use vstd::prelude::*;

verus! {

/// Quarter turns added to `atan(y / x)` to recover the direction of `(x, y)`,
/// by the signs of `x` and `y`.
pub open spec fn quadrant_offset(x_positive: bool, y_positive: bool) -> nat {
    match (x_positive, y_positive) {
        (true, true) => 0,
        (false, true) => 2,
        (false, false) => 2,
        (true, false) => 4,
    }
}

/// The quarter of the full turn, counted from the positive x-axis
/// anticlockwise, in which the direction of `(x, y)` lies.
pub open spec fn sector(x_positive: bool, y_positive: bool) -> nat {
    match (x_positive, y_positive) {
        (true, true) => 0,
        (false, true) => 1,
        (false, false) => 2,
        (true, false) => 3,
    }
}

/// Direction, in quarter turns, of the x-axis component of a vector whose
/// x-projection has the given sign: along `+x` or along `-x`.
pub open spec fn x_axis_direction(x_positive: bool) -> nat {
    if x_positive {
        0
    } else {
        2
    }
}

/// Direction, in quarter turns, of the y-axis component of a vector whose
/// y-projection has the given sign: along `+y` or along `-y`.
pub open spec fn y_axis_direction(y_positive: bool) -> nat {
    if y_positive {
        1
    } else {
        3
    }
}

/// The number of quarter turns to add to `atan(y / x)` so that the sum is the
/// direction of `(x, y)` in `[0, 2 pi]`.
pub fn quadrant_quarter_turns(x_positive: bool, y_positive: bool) -> (r: u8)
    ensures
        r == quadrant_offset(x_positive, y_positive),
{
    match (x_positive, y_positive) {
        (true, true) => 0,
        (false, true) => 2,
        (false, false) => 2,
        (true, false) => 4,
    }
}

/// The direction, in quarter turns, of the x-axis component: `0` when the
/// x-projection is non-negative, else `2` (a half turn).
pub fn x_component_quarter_turns(x_positive: bool) -> (r: u8)
    ensures
        r == x_axis_direction(x_positive),
{
    if x_positive {
        0
    } else {
        2
    }
}

/// The direction, in quarter turns, of the y-axis component: `1` when the
/// y-projection is non-negative, else `3`.
pub fn y_component_quarter_turns(y_positive: bool) -> (r: u8)
    ensures
        r == y_axis_direction(y_positive),
{
    if y_positive {
        1
    } else {
        3
    }
}

/// The recovered direction lies in the quarter of the turn that the signs
/// name, and within the full turn `[0, 2 pi]`.
///
/// Lengths are measured in a unit in which a quarter turn is `q`. The term
/// `t` stands for `atan(y / x)`: it lies within a quarter turn of zero, and
/// it is non-negative when `x` and `y` have the same sign (the ratio is
/// non-negative) and non-positive when they differ.
pub proof fn lemma_direction_in_sector(x_positive: bool, y_positive: bool, q: int, t: int)
    requires
        q > 0,
        -q <= t <= q,
        x_positive == y_positive ==> t >= 0,
        x_positive != y_positive ==> t <= 0,
    ensures
        sector(x_positive, y_positive) * q <= quadrant_offset(x_positive, y_positive) * q + t,
        quadrant_offset(x_positive, y_positive) * q + t <= (sector(x_positive, y_positive) + 1)
            * q,
        0 <= quadrant_offset(x_positive, y_positive) * q + t <= 4 * q,
{
    match (x_positive, y_positive) {
        (true, true) => {
            assert(0 * q == 0) by (nonlinear_arith);
            assert(1 * q == q) by (nonlinear_arith);
        },
        (false, true) => {
            assert(1 * q == q) by (nonlinear_arith);
            assert(2 * q == q + q) by (nonlinear_arith);
        },
        (false, false) => {
            assert(2 * q == q + q) by (nonlinear_arith);
            assert(3 * q == q + q + q) by (nonlinear_arith);
        },
        (true, false) => {
            assert(3 * q == q + q + q) by (nonlinear_arith);
            assert(4 * q == q + q + q + q) by (nonlinear_arith);
        },
    }
}

/// The axis components of a vector point the way its recovered direction
/// does: the x-component points along `-x` exactly when the direction lies in
/// the second or third quarter, and the y-component points along `-y` exactly
/// when it lies in the third or fourth.
pub proof fn lemma_components_agree_with_sector(x_positive: bool, y_positive: bool)
    ensures
        x_axis_direction(x_positive) == 2 <==> (sector(x_positive, y_positive) == 1 || sector(
            x_positive,
            y_positive,
        ) == 2),
        y_axis_direction(y_positive) == 3 <==> sector(x_positive, y_positive) >= 2,
{
}

} // verus!
