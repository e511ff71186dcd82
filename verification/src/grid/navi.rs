//! Direction vectors.
//!
//! ```text
//!         ^ UP
//!         |
//! LEFT <-   -> RIGHT
//!         |
//!         v DOWN
//! ```

use vstd::prelude::*;

verus! {

/// An offset between two cells: the step along x, then the step along y.
pub type Direction = (i16, i16);

/// No movement.
pub const SITU: (i16, i16) = (0, 0);

/// One cell towards greater y.
pub const UP: (i16, i16) = (0, 1);

/// One cell towards lesser y.
pub const DOWN: (i16, i16) = (0, -1);

/// One cell towards lesser x.
pub const LEFT: (i16, i16) = (-1, 0);

/// One cell towards greater x.
pub const RIGHT: (i16, i16) = (1, 0);

/// The signed 16-bit value that is congruent to `v` modulo 65536: where an
/// axis of the plane wraps `v` to.
pub open spec fn wrap16(v: int) -> i16 {
    ((v + 32768) % 65536 - 32768) as i16
}

/// Within one lap of the 16-bit range, wrapping adds or takes away 65536
/// once at most.
pub proof fn lemma_wrap16_within_a_lap(v: int)
    requires
        -65536 <= v < 65536,
    ensures
        wrap16(v) == if v < -32768 {
            v + 65536
        } else if v > 32767 {
            v - 65536
        } else {
            v
        },
{
}

/// The direction that undoes `d` on the wrapped plane.
pub open spec fn opposite(d: Direction) -> Direction {
    (wrap16(-d.0), wrap16(-d.1))
}

/// The single direction that moves as far as `first` and then `second`.
pub open spec fn combined(first: Direction, second: Direction) -> Direction {
    (wrap16(first.0 + second.0), wrap16(first.1 + second.1))
}

/// The opposite of a step is the step with both components negated,
/// wherever the negated components exist: so up and down are opposites,
/// and so are left and right.
pub proof fn lemma_opposite_negates(d: Direction)
    requires
        d.0 > i16::MIN,
        d.1 > i16::MIN,
    ensures
        opposite(d) == ((-d.0) as i16, (-d.1) as i16),
{
}

/// Steps combine in any grouping: of three steps in a row it does not
/// matter which two are combined first.
pub proof fn lemma_combined_associative(first: Direction, second: Direction, third: Direction)
    ensures
        combined(combined(first, second), third) == combined(first, combined(second, third)),
{
    lemma_wrap16_within_a_lap(first.0 + second.0);
    lemma_wrap16_within_a_lap(wrap16(first.0 + second.0) + third.0);
    lemma_wrap16_within_a_lap(second.0 + third.0);
    lemma_wrap16_within_a_lap(first.0 + wrap16(second.0 + third.0));
    lemma_wrap16_within_a_lap(first.1 + second.1);
    lemma_wrap16_within_a_lap(wrap16(first.1 + second.1) + third.1);
    lemma_wrap16_within_a_lap(second.1 + third.1);
    lemma_wrap16_within_a_lap(first.1 + wrap16(second.1 + third.1));
}

} // verus!
