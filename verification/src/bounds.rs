//! Holding a camera coordinate or a zoom exponent within bounds.
//!
//! The numbers are IEEE 754 single-precision values, taken here by their 32 bits: to
//! hold a number within bounds is a matter of order alone, and the order of such numbers
//! can be read off their bits. Of two numbers that are not NaN the smaller has the
//! smaller `order_key`; the one exception is that the key tells the two zeros apart,
//! the negative one below the positive one, where the numbers count as equal.

use vstd::prelude::*;

verus! {

/// The bit that holds the sign.
pub const SIGN_BIT: u32 = 0x8000_0000;

/// The bits of positive infinity. What lies above, the sign apart, is NaN.
pub const INFINITY_BITS: u32 = 0x7F80_0000;

/// The bits of a number without its sign.
pub open spec fn magnitude_of(bits: u32) -> int {
    if bits >= SIGN_BIT {
        bits - SIGN_BIT
    } else {
        bits as int
    }
}

/// The bits are those of a NaN.
pub open spec fn is_nan_bits(bits: u32) -> bool {
    magnitude_of(bits) > INFINITY_BITS
}

/// The place of a number in the order of all numbers: the magnitude where the sign is
/// clear, and below zero by the magnitude and one where it is set.
pub open spec fn order_key_of(bits: u32) -> int {
    if bits >= SIGN_BIT {
        -magnitude_of(bits) - 1
    } else {
        bits as int
    }
}

/// The larger of two numbers. A NaN gives way to the other number; of two equal numbers
/// the first is taken.
pub open spec fn larger_of(a: u32, b: u32) -> u32 {
    if is_nan_bits(a) {
        b
    } else if is_nan_bits(b) {
        a
    } else if order_key_of(a) >= order_key_of(b) {
        a
    } else {
        b
    }
}

/// The smaller of two numbers. A NaN gives way to the other number; of two equal
/// numbers the first is taken.
pub open spec fn smaller_of(a: u32, b: u32) -> u32 {
    if is_nan_bits(a) {
        b
    } else if is_nan_bits(b) {
        a
    } else if order_key_of(a) <= order_key_of(b) {
        a
    } else {
        b
    }
}

/// Whether the bits are those of a NaN.
pub fn is_nan(bits: u32) -> (nan: bool)
    ensures
        nan == is_nan_bits(bits),
{
    let magnitude = if bits >= SIGN_BIT {
        bits - SIGN_BIT
    } else {
        bits
    };
    magnitude > INFINITY_BITS
}

/// The place of a number in the order of all numbers.
pub fn order_key(bits: u32) -> (key: i64)
    ensures
        key == order_key_of(bits),
{
    if bits >= SIGN_BIT {
        -((bits - SIGN_BIT) as i64) - 1
    } else {
        bits as i64
    }
}

/// The larger of two numbers.
pub fn larger(a: u32, b: u32) -> (max: u32)
    ensures
        max == larger_of(a, b),
{
    if is_nan(a) {
        b
    } else if is_nan(b) {
        a
    } else if order_key(a) >= order_key(b) {
        a
    } else {
        b
    }
}

/// The smaller of two numbers.
pub fn smaller(a: u32, b: u32) -> (min: u32)
    ensures
        min == smaller_of(a, b),
{
    if is_nan(a) {
        b
    } else if is_nan(b) {
        a
    } else if order_key(a) <= order_key(b) {
        a
    } else {
        b
    }
}

/// The range that a number is held in: from `lower` to `upper`, both included, each
/// side open where it is `None`.
#[derive(Clone, Copy, Debug, PartialEq, Eq)]
pub struct Bounds {
    pub lower: Option<u32>,
    pub upper: Option<u32>,
}

impl Bounds {
    /// The bounds are numbers, and the lower one is not above the upper one.
    pub open spec fn is_proper(self) -> bool {
        &&& self.lower matches Some(lower) ==> !is_nan_bits(lower)
        &&& self.upper matches Some(upper) ==> !is_nan_bits(upper)
        &&& self.lower matches Some(lower) ==> (self.upper matches Some(upper) ==> order_key_of(
            lower,
        ) <= order_key_of(upper))
    }

    /// The number lies within the bounds.
    pub open spec fn holds(self, value: u32) -> bool {
        &&& !is_nan_bits(value)
        &&& self.lower matches Some(lower) ==> order_key_of(lower) <= order_key_of(value)
        &&& self.upper matches Some(upper) ==> order_key_of(value) <= order_key_of(upper)
    }

    /// The number brought within the bounds: raised to the lower bound first, then
    /// lowered to the upper one.
    pub open spec fn limited(self, value: u32) -> u32 {
        let raised = match self.lower {
            Some(lower) => larger_of(value, lower),
            None => value,
        };
        match self.upper {
            Some(upper) => smaller_of(raised, upper),
            None => raised,
        }
    }

    /// Bounds that hold nothing back.
    pub fn unbounded() -> (bounds: Bounds)
        ensures
            bounds == (Bounds { lower: None, upper: None }),
            bounds.is_proper(),
    {
        Bounds { lower: None, upper: None }
    }

    /// Whether the bounds are numbers in their order.
    pub fn proper(&self) -> (proper: bool)
        ensures
            proper == self.is_proper(),
    {
        let lower_fine = match self.lower {
            Some(lower) => !is_nan(lower),
            None => true,
        };
        let upper_fine = match self.upper {
            Some(upper) => !is_nan(upper),
            None => true,
        };
        let ordered = match (self.lower, self.upper) {
            (Some(lower), Some(upper)) => order_key(lower) <= order_key(upper),
            _ => true,
        };
        lower_fine && upper_fine && ordered
    }

    /// Whether the number lies within the bounds.
    pub fn contains(&self, value: u32) -> (held: bool)
        ensures
            held == self.holds(value),
    {
        let above = match self.lower {
            Some(lower) => order_key(lower) <= order_key(value),
            None => true,
        };
        let below = match self.upper {
            Some(upper) => order_key(value) <= order_key(upper),
            None => true,
        };
        !is_nan(value) && above && below
    }

    /// Brings a number within the bounds.
    pub fn limit_value(&self, value: u32) -> (limited: u32)
        ensures
            limited == self.limited(value),
    {
        let raised = match self.lower {
            Some(lower) => larger(value, lower),
            None => value,
        };
        match self.upper {
            Some(upper) => smaller(raised, upper),
            None => raised,
        }
    }
}

/// The bounds of a camera: one range for each coordinate of its centre and one for its
/// zoom exponent.
#[derive(Clone, Copy, Debug, PartialEq, Eq)]
pub struct CameraBounds {
    pub x: Bounds,
    pub y: Bounds,
    pub exponent: Bounds,
}

impl CameraBounds {
    /// All three ranges are proper.
    pub open spec fn is_proper(self) -> bool {
        self.x.is_proper() && self.y.is_proper() && self.exponent.is_proper()
    }

    /// A camera that may go anywhere: free exploration.
    pub fn unbounded() -> (bounds: CameraBounds)
        ensures
            bounds.x == (Bounds { lower: None, upper: None }),
            bounds.y == bounds.x,
            bounds.exponent == bounds.x,
            bounds.is_proper(),
    {
        CameraBounds {
            x: Bounds::unbounded(),
            y: Bounds::unbounded(),
            exponent: Bounds::unbounded(),
        }
    }

    /// Brings a centre within the bounds, each coordinate by itself.
    pub fn limit_center(&self, center: (u32, u32)) -> (limited: (u32, u32))
        ensures
            limited == (self.x.limited(center.0), self.y.limited(center.1)),
    {
        (self.x.limit_value(center.0), self.y.limit_value(center.1))
    }

    /// Brings a zoom exponent within the bounds.
    pub fn limit_exponent(&self, exponent: u32) -> (limited: u32)
        ensures
            limited == self.exponent.limited(exponent),
    {
        self.exponent.limit_value(exponent)
    }
}

/// What is limited lies within the bounds: any number, and a NaN too as long as there
/// is a bound to fall back on.
pub proof fn lemma_limited_is_held(bounds: Bounds, value: u32)
    requires
        bounds.is_proper(),
        !is_nan_bits(value) || bounds.lower is Some || bounds.upper is Some,
    ensures
        bounds.holds(bounds.limited(value)),
{
}

/// A number within the bounds is left as it is. So to limit twice is to limit once.
pub proof fn lemma_limited_keeps_held(bounds: Bounds, value: u32)
    requires
        bounds.holds(value),
    ensures
        bounds.limited(value) == value,
{
}

/// Limiting keeps the order: of two numbers the smaller is not the larger afterwards.
pub proof fn lemma_limited_keeps_order(bounds: Bounds, a: u32, b: u32)
    requires
        bounds.is_proper(),
        !is_nan_bits(a),
        !is_nan_bits(b),
        order_key_of(a) <= order_key_of(b),
    ensures
        order_key_of(bounds.limited(a)) <= order_key_of(bounds.limited(b)),
{
}

/// A number outside the bounds ends up on the bound that it was beyond.
pub proof fn lemma_limited_stops_at_bound(bounds: Bounds, value: u32)
    requires
        bounds.is_proper(),
        !is_nan_bits(value),
    ensures
        bounds.upper matches Some(upper) ==> (order_key_of(value) > order_key_of(upper)
            ==> bounds.limited(value) == upper),
        bounds.lower matches Some(lower) ==> (order_key_of(value) < order_key_of(lower)
            ==> bounds.limited(value) == lower),
{
}

/// The value that is kept when one candidate after the other is limited and stored:
/// the last candidate, limited, or the first value where there was no candidate.
pub open spec fn after_updates(bounds: Bounds, value: u32, candidates: Seq<u32>) -> u32
    decreases candidates.len(),
{
    if candidates.len() == 0 {
        value
    } else {
        after_updates(bounds, bounds.limited(candidates[0]), candidates.drop_first())
    }
}

/// Whatever a sequence of updates asks for, the value stays within the bounds: if it is
/// held at the start and every candidate is limited before it is stored, it is held
/// after the last update.
pub proof fn lemma_updates_stay_held(bounds: Bounds, value: u32, candidates: Seq<u32>)
    requires
        bounds.is_proper(),
        bounds.holds(value),
        bounds.lower is Some || bounds.upper is Some || forall|i: int|
            0 <= i < candidates.len() ==> !is_nan_bits(candidates[i]),
    ensures
        bounds.holds(after_updates(bounds, value, candidates)),
    decreases candidates.len(),
{
    if candidates.len() > 0 {
        lemma_limited_is_held(bounds, candidates[0]);
        let rest = candidates.drop_first();
        if !(bounds.lower is Some || bounds.upper is Some) {
            assert forall|i: int| 0 <= i < rest.len() implies !is_nan_bits(rest[i]) by {
                assert(rest[i] == candidates[i + 1]);
            }
        }
        lemma_updates_stay_held(bounds, bounds.limited(candidates[0]), rest);
    }
}

} // verus!
