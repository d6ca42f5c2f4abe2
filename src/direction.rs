use vstd::prelude::*;

verus! {

/// Direction of swipe gestures.
///
/// ```text
/// NW  N  NE
/// W   C   E
/// SW  S  SE
/// ```
///
/// Motion coordinates grow to the right and downward, as the touchpad reports them.
#[derive(Debug, Clone, Copy, PartialEq, Eq, Structural)]
pub enum Direction {
    Any,
    N,
    S,
    E,
    W,
    NE,
    NW,
    SE,
    SW,
}

/// Direction of pinch gestures.
#[derive(Debug, Clone, Copy, PartialEq, Eq, Structural)]
pub enum InOut {
    In,
    Out,
    Any,
}

/// Repeat mode of a rotate binding.
#[derive(Debug, Clone, Copy, PartialEq, Eq, Structural)]
pub enum Repeat {
    Oneshot,
    Continuous,
}

/// The boundary between a cardinal and a diagonal sector is the ratio
/// `OBLIQUE_NUM / OBLIQUE_DEN` (0.414, about tan 22.5 degrees) of the
/// secondary axis to the primary one.
pub const OBLIQUE_NUM: i128 = 414;

pub const OBLIQUE_DEN: i128 = 1000;

pub open spec fn abs(v: int) -> int {
    if v < 0 {
        -v
    } else {
        v
    }
}

/// `minor / major` exceeds the oblique ratio.
pub open spec fn is_oblique(minor: int, major: int) -> bool {
    OBLIQUE_DEN * minor > OBLIQUE_NUM * major
}

/// The compass sector of the motion `(dx, dy)`.
pub open spec fn direction_of(dx: int, dy: int) -> Direction {
    if dx == 0 && dy == 0 {
        Direction::Any
    } else if abs(dx) > abs(dy) {
        if is_oblique(abs(dy), abs(dx)) {
            if dx < 0 {
                if dy < 0 { Direction::NW } else { Direction::SW }
            } else {
                if dy < 0 { Direction::NE } else { Direction::SE }
            }
        } else if dx < 0 {
            Direction::W
        } else {
            Direction::E
        }
    } else {
        if is_oblique(abs(dx), abs(dy)) {
            if dy < 0 {
                if dx < 0 { Direction::NW } else { Direction::NE }
            } else {
                if dx < 0 { Direction::SW } else { Direction::SE }
            }
        } else if dy < 0 {
            Direction::N
        } else {
            Direction::S
        }
    }
}

impl Direction {
    /// Classifies the motion `(x, y)` into one of the eight compass sectors, or
    /// `Any` when there is no motion at all. Ties between the axes go to the
    /// vertical one.
    pub fn dir(x: i64, y: i64) -> (r: Direction)
        ensures
            r == direction_of(x as int, y as int),
    {
        if x == 0 && y == 0 {
            return Direction::Any;
        }
        let ax: i128 = if x < 0 { -(x as i128) } else { x as i128 };
        let ay: i128 = if y < 0 { -(y as i128) } else { y as i128 };
        if ax > ay {
            if OBLIQUE_DEN * ay > OBLIQUE_NUM * ax {
                if x < 0 {
                    if y < 0 { Direction::NW } else { Direction::SW }
                } else {
                    if y < 0 { Direction::NE } else { Direction::SE }
                }
            } else if x < 0 {
                Direction::W
            } else {
                Direction::E
            }
        } else {
            if OBLIQUE_DEN * ax > OBLIQUE_NUM * ay {
                if y < 0 {
                    if x < 0 { Direction::NW } else { Direction::NE }
                } else {
                    if x < 0 { Direction::SW } else { Direction::SE }
                }
            } else if y < 0 {
                Direction::N
            } else {
                Direction::S
            }
        }
    }
}

proof fn lemma_scale_abs(k: int, v: int)
    requires
        k > 0,
    ensures
        abs(k * v) == k * abs(v),
{
    if v < 0 {
        assert(k * v < 0) by (nonlinear_arith)
            requires
                k > 0,
                v < 0,
        ;
        assert(-(k * v) == k * (-v)) by (nonlinear_arith);
    } else {
        assert(k * v >= 0) by (nonlinear_arith)
            requires
                k > 0,
                v >= 0,
        ;
    }
}

proof fn lemma_scale_cmp(k: int, a: int, b: int)
    requires
        k > 0,
    ensures
        (k * a > k * b) == (a > b),
        (k * a < 0) == (a < 0),
        (k * a == 0) == (a == 0),
{
    assert((k * a > k * b) == (a > b)) by (nonlinear_arith)
        requires
            k > 0,
    ;
    assert((k * a < 0) == (a < 0)) by (nonlinear_arith)
        requires
            k > 0,
    ;
    assert((k * a == 0) == (a == 0)) by (nonlinear_arith)
        requires
            k > 0,
    ;
}

/// Scaling a motion by any positive factor leaves its direction unchanged.
pub proof fn lemma_direction_scale_invariant(dx: int, dy: int, k: int)
    requires
        k > 0,
    ensures
        direction_of(k * dx, k * dy) == direction_of(dx, dy),
{
    lemma_scale_abs(k, dx);
    lemma_scale_abs(k, dy);
    lemma_scale_cmp(k, dx, dy);
    lemma_scale_cmp(k, dy, dx);
    lemma_scale_cmp(k, abs(dx), abs(dy));
    lemma_scale_cmp(k, OBLIQUE_DEN * abs(dy), OBLIQUE_NUM * abs(dx));
    lemma_scale_cmp(k, OBLIQUE_DEN * abs(dx), OBLIQUE_NUM * abs(dy));
    assert(OBLIQUE_DEN * (k * abs(dy)) == k * (OBLIQUE_DEN * abs(dy))) by (nonlinear_arith);
    assert(OBLIQUE_NUM * (k * abs(dx)) == k * (OBLIQUE_NUM * abs(dx))) by (nonlinear_arith);
    assert(OBLIQUE_DEN * (k * abs(dx)) == k * (OBLIQUE_DEN * abs(dx))) by (nonlinear_arith);
    assert(OBLIQUE_NUM * (k * abs(dy)) == k * (OBLIQUE_NUM * abs(dy))) by (nonlinear_arith);
}

} // verus!
