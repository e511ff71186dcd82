//! Temperature scales and the Carnot efficiency between two readings.
//!
//! Readings are stored on the standard scale, which is signed. Efficiency
//! is taken on the absolute scale, which is the standard scale shifted so
//! that its lowest reading is 0. An efficiency is held here exactly, as
//! the pair of absolute readings that it lies between, and never as a
//! rounded quotient.

use vstd::prelude::*;

verus! {

/// A temperature as the simulation stores it.
pub type Temperature = i8;

/// A reading on the standard scale, from -128 to 127.
pub type Standard = i8;

/// A reading on the absolute scale, from 0 to 255.
pub type Absolute = u8;

/// The absolute reading of a standard one: 128 more.
pub open spec fn absolute_of(value: Standard) -> int {
    value + 128
}

/// The standard reading of an absolute one: 128 less.
pub open spec fn standard_of(value: Absolute) -> int {
    value - 128
}

/// Converts a standard reading to the absolute scale.
pub fn to_absolute(value: Standard) -> (result: Absolute)
    ensures
        result == absolute_of(value),
{
    if value < 0 {
        (value - i8::MIN) as u8
    } else {
        value as u8 + 128u8
    }
}

/// The efficiency of a Carnot engine that runs between a hot and a cold
/// reservoir: the ratio `1 - cold / hot` of their absolute readings. Where
/// the two readings are equal the efficiency is 0, also where both are 0
/// and the quotient has no value.
#[derive(Debug, Clone, Copy, PartialEq, Eq, Structural)]
pub struct Efficiency {
    /// The absolute reading of the hotter side.
    pub hot: Absolute,
    /// The absolute reading of the colder side.
    pub cold: Absolute,
}

impl Efficiency {
    /// The hot side is no colder than the cold side.
    pub open spec fn wf(self) -> bool {
        self.cold <= self.hot
    }

    /// The numerator of the efficiency as a fraction.
    pub open spec fn numerator(self) -> int {
        self.hot - self.cold
    }

    /// The denominator of the efficiency as a fraction. It is never 0:
    /// between two readings of 0 the fraction is 0 over 1.
    pub open spec fn denominator(self) -> int {
        if self.hot == 0 {
            1
        } else {
            self.hot as int
        }
    }

    /// Whether the efficiency is 0: whether the two sides read the same.
    pub fn is_zero(&self) -> (r: bool)
        ensures
            r == (self.numerator() == 0),
            r == (self.hot == self.cold),
    {
        self.hot == self.cold
    }
}

/// The efficiency between the readings `one` and `other`: the hot side is
/// the greater of their absolute readings, the cold side the lesser.
pub open spec fn efficiency_between(one: Standard, other: Standard) -> Efficiency {
    Efficiency {
        hot: vstd::math::max(absolute_of(one), absolute_of(other)) as Absolute,
        cold: vstd::math::min(absolute_of(one), absolute_of(other)) as Absolute,
    }
}

/// The efficiency between the readings `one` and `other`, whichever of
/// them is the hotter.
pub fn carnot_efficiency(one: Standard, other: Standard) -> (e: Efficiency)
    ensures
        e == efficiency_between(one, other),
{
    let one = to_absolute(one);
    let other = to_absolute(other);
    if one > other {
        Efficiency { hot: one, cold: other }
    } else {
        Efficiency { hot: other, cold: one }
    }
}

/// The absolute scale keeps the order of the standard one, strictly.
pub proof fn lemma_absolute_strictly_increasing(lower: Standard, higher: Standard)
    requires
        lower < higher,
    ensures
        absolute_of(lower) < absolute_of(higher),
{
}

/// The two scales match one to one: every standard reading has an absolute
/// reading, every absolute reading is that of one standard reading, and
/// going there and back changes nothing.
pub proof fn lemma_scales_match(standard: Standard, absolute: Absolute)
    ensures
        0 <= absolute_of(standard) <= 255,
        -128 <= standard_of(absolute) <= 127,
        standard_of(absolute_of(standard) as Absolute) == standard,
        absolute_of(standard_of(absolute) as Standard) == absolute,
{
}

/// An efficiency between two readings lies between 0 and 1: its hot side
/// is no colder than its cold side, so as a fraction its numerator is not
/// negative and not above its denominator, which is not 0.
pub proof fn lemma_efficiency_is_a_share(one: Standard, other: Standard)
    ensures
        efficiency_between(one, other).wf(),
        0 <= efficiency_between(one, other).numerator() <= efficiency_between(
            one,
            other,
        ).denominator(),
        0 < efficiency_between(one, other).denominator(),
{
}

/// Between a reading and itself the efficiency is 0.
pub proof fn lemma_efficiency_of_equal_readings(reading: Standard)
    ensures
        efficiency_between(reading, reading).numerator() == 0,
{
}

/// The efficiency between two readings does not depend on which of them
/// is named first.
pub proof fn lemma_efficiency_symmetric(one: Standard, other: Standard)
    ensures
        efficiency_between(one, other) == efficiency_between(other, one),
{
}

} // verus!
