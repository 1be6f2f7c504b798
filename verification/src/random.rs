//! Cheap pseudo random numbers from the clock.
use vstd::prelude::*;

verus! {

/// A pseudo random number: the nanoseconds of the current second.
pub fn pseudo_random() -> (r: u32)
    ensures
        r < 1_000_000_000,
{
    crate::clock::subsec_nanos_now()
}

/// `random` folded into the range `min..max`.
pub open spec fn folded(random: u32, min: u32, max: u32) -> int {
    min + (random as int) % ((max - min) as int)
}

/// `random` folded into the range `min..max`.
pub fn fold_into_range(random: u32, min: u32, max: u32) -> (r: u32)
    requires
        min < max,
    ensures
        r == folded(random, min, max),
        min <= r < max,
{
    min + (random % (max - min))
}

/// A pseudo random number in the range `min..max`: a clock reading below
/// one billion folded into the range.
pub fn pseudo_random_range(min: u32, max: u32) -> (r: u32)
    requires
        min < max,
    ensures
        min <= r < max,
        exists|random: u32| random < 1_000_000_000 && r == #[trigger] folded(random, min, max),
{
    let random = pseudo_random();
    fold_into_range(random, min, max)
}

} // verus!
