use vstd::prelude::*;

verus! {

/// One unit of a fixed-point sample: samples are counted in millionths.
pub const FIXED_ONE: i64 = 1_000_000;

/// Below this scale (exclusive) a pinch is a plain pinch, not a rotation.
pub const ROTATE_SCALE_LOW: i64 = 920_000;

/// Above this scale (exclusive) a pinch is a plain pinch, not a rotation.
pub const ROTATE_SCALE_HIGH: i64 = 1_080_000;

/// Direction of swipe gestures
///
/// NW  N  NE
/// W   C   E
/// SW  S  SE
#[derive(Debug, Clone, Copy, PartialEq, Eq, Structural)]
pub enum SwipeDir {
    Any,
    N,
    S,
    E,
    W,
    NE,
    NW,
    SE,
    SW,
}

/// Direction of pinch gestures
#[derive(Debug, Clone, Copy, PartialEq, Eq, Structural)]
pub enum PinchDir {
    In,
    Out,
    Clockwise,
    CounterClockwise,
    Any,
}

pub open spec fn abs(v: int) -> int {
    if v < 0 {
        -v
    } else {
        v
    }
}

/// `minor / major > tan(22.5°) = 1 / (1 + √2)`, for `0 <= minor <= major`.
///
/// Multiplying out: `√2 · minor > major - minor`; both sides are non-negative,
/// so this is the same as comparing their squares.
pub open spec fn is_oblique(minor: int, major: int) -> bool {
    2 * minor * minor > (major - minor) * (major - minor)
}

/// The diagonal in the quadrant given by the signs of `dx` and `dy`
/// (screen coordinates: a negative `dy` points north).
pub open spec fn diagonal(dx: int, dy: int) -> SwipeDir {
    if dy < 0 {
        if dx < 0 {
            SwipeDir::NW
        } else {
            SwipeDir::NE
        }
    } else {
        if dx < 0 {
            SwipeDir::SW
        } else {
            SwipeDir::SE
        }
    }
}

/// The compass octant of the displacement `(dx, dy)`; `Any` when there is none.
///
/// The larger magnitude picks the primary axis, a tie going to the vertical
/// one; the displacement is diagonal when the minor component exceeds the
/// major one times `tan(22.5°)`.
pub open spec fn swipe_dir(dx: int, dy: int) -> SwipeDir {
    if dx == 0 && dy == 0 {
        SwipeDir::Any
    } else if abs(dx) > abs(dy) {
        if is_oblique(abs(dy), abs(dx)) {
            diagonal(dx, dy)
        } else if dx < 0 {
            SwipeDir::W
        } else {
            SwipeDir::E
        }
    } else {
        if is_oblique(abs(dx), abs(dy)) {
            diagonal(dx, dy)
        } else if dy < 0 {
            SwipeDir::N
        } else {
            SwipeDir::S
        }
    }
}

/// A scale strictly inside the rotation band is a rotation, whose sense is the
/// sign of the angle; outside it a growing scale is `Out`, any other `In`.
pub open spec fn pinch_dir(scale: int, angle_delta: int) -> PinchDir {
    if ROTATE_SCALE_LOW < scale && scale < ROTATE_SCALE_HIGH {
        if angle_delta > 0 {
            PinchDir::Clockwise
        } else {
            PinchDir::CounterClockwise
        }
    } else if scale > FIXED_ONE {
        PinchDir::Out
    } else {
        PinchDir::In
    }
}

fn magnitude(v: i64) -> (r: u128)
    ensures
        r as int == abs(v as int),
        r <= 0x8000_0000_0000_0000,
{
    if v < 0 {
        (-(v as i128)) as u128
    } else {
        v as u128
    }
}

impl SwipeDir {
    /// Classifies the displacement `(dx, dy)`, in fixed-point units.
    pub fn dir(dx: i64, dy: i64) -> (r: SwipeDir)
        ensures
            r == swipe_dir(dx as int, dy as int),
    {
        if dx == 0 && dy == 0 {
            return SwipeDir::Any;
        }
        let ax = magnitude(dx);
        let ay = magnitude(dy);
        let horizontal = ax > ay;
        let (minor, major) = if horizontal {
            (ay, ax)
        } else {
            (ax, ay)
        };
        let gap = major - minor;
        assert(minor * minor <= 0x4000_0000_0000_0000_0000_0000_0000_0000) by (nonlinear_arith)
            requires
                minor <= 0x8000_0000_0000_0000u128,
        ;
        assert(gap * gap <= 0x4000_0000_0000_0000_0000_0000_0000_0000) by (nonlinear_arith)
            requires
                gap <= 0x8000_0000_0000_0000u128,
        ;
        let oblique = 2 * (minor * minor) > gap * gap;
        assert(oblique == is_oblique(minor as int, major as int)) by (nonlinear_arith)
            requires
                oblique == (2 * (minor * minor) > gap * gap),
                gap == major - minor,
        ;
        if oblique {
            if dy < 0 {
                if dx < 0 {
                    SwipeDir::NW
                } else {
                    SwipeDir::NE
                }
            } else {
                if dx < 0 {
                    SwipeDir::SW
                } else {
                    SwipeDir::SE
                }
            }
        } else if horizontal {
            if dx < 0 {
                SwipeDir::W
            } else {
                SwipeDir::E
            }
        } else {
            if dy < 0 {
                SwipeDir::N
            } else {
                SwipeDir::S
            }
        }
    }
}

impl PinchDir {
    /// Classifies a pinch update from its scale and angle delta, in fixed-point units.
    pub fn dir(scale: i64, delta_angle: i64) -> (r: PinchDir)
        ensures
            r == pinch_dir(scale as int, delta_angle as int),
    {
        if ROTATE_SCALE_LOW < scale && scale < ROTATE_SCALE_HIGH {
            if delta_angle > 0 {
                PinchDir::Clockwise
            } else {
                PinchDir::CounterClockwise
            }
        } else if scale > FIXED_ONE {
            PinchDir::Out
        } else {
            PinchDir::In
        }
    }
}

/// No displacement classifies as `Any`.
pub proof fn lemma_no_motion_is_any(dx: int, dy: int)
    requires
        dx == 0,
        dy == 0,
    ensures
        swipe_dir(dx, dy) == SwipeDir::Any,
{
}

/// A displacement along one axis classifies as that axis's direction:
/// `E` or `W` by the sign of `dx`, `S` or `N` by the sign of `dy`.
pub proof fn lemma_axis_motion(d: int)
    requires
        d != 0,
    ensures
        swipe_dir(d, 0) == (if d > 0 { SwipeDir::E } else { SwipeDir::W }),
        swipe_dir(0, d) == (if d > 0 { SwipeDir::S } else { SwipeDir::N }),
{
    assert(!is_oblique(0, abs(d))) by (nonlinear_arith)
        requires
            abs(d) > 0,
    ;
}

proof fn lemma_scaled_magnitude(v: int, k: int)
    requires
        k > 0,
    ensures
        abs(k * v) == k * abs(v),
        (k * v < 0) == (v < 0),
        (k * v == 0) == (v == 0),
{
    if v < 0 {
        assert(k * v < 0) by (nonlinear_arith)
            requires
                k > 0,
                v < 0,
        ;
        assert(-(k * v) == k * (-v)) by (nonlinear_arith);
    } else if v == 0 {
        assert(k * v == 0) by (nonlinear_arith)
            requires
                v == 0,
        ;
    } else {
        assert(k * v > 0) by (nonlinear_arith)
            requires
                k > 0,
                v > 0,
        ;
    }
}

proof fn lemma_scaled_comparisons(a: int, b: int, k: int)
    requires
        k > 0,
        0 <= a,
        0 <= b,
    ensures
        (k * a > k * b) == (a > b),
        is_oblique(k * a, k * b) == is_oblique(a, b),
{
    assert((k * a > k * b) == (a > b)) by (nonlinear_arith)
        requires
            k > 0,
    ;
    let lhs = 2 * a * a - (b - a) * (b - a);
    assert(2 * (k * a) * (k * a) - (k * b - k * a) * (k * b - k * a) == k * k * lhs)
        by (nonlinear_arith)
        requires
            lhs == 2 * a * a - (b - a) * (b - a),
    ;
    assert(k * k > 0) by (nonlinear_arith)
        requires
            k > 0,
    ;
    assert((k * k * lhs > 0) == (lhs > 0)) by (nonlinear_arith)
        requires
            k * k > 0,
    ;
}

/// Classifying a swipe does not depend on the size of the displacement:
/// scaling `(dx, dy)` by any positive factor keeps its direction.
pub proof fn lemma_scale_invariant(dx: int, dy: int, k: int)
    requires
        k > 0,
    ensures
        swipe_dir(k * dx, k * dy) == swipe_dir(dx, dy),
{
    lemma_scaled_magnitude(dx, k);
    lemma_scaled_magnitude(dy, k);
    lemma_scaled_comparisons(abs(dx), abs(dy), k);
    lemma_scaled_comparisons(abs(dy), abs(dx), k);
}

} // verus!
