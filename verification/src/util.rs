//! Bound-biased comparisons over any partially ordered type.
//!
//! `min` and `max` here are not the conventional pair: each takes a value and
//! a bound and answers with the bound whenever the value is on the named side
//! of it or equal to it. Read on a total order, `min` therefore yields the
//! larger of its arguments and `max` the smaller.
//!
//! Every contract is stated twice. The first clause speaks to types whose
//! comparison operators follow their `partial_cmp` specification (all the
//! integer types do). The second clause holds of every type, including those
//! whose comparisons Verus treats as opaque: it ties the result to what the
//! comparison operators actually answered.

use vstd::prelude::*;
use vstd::std_specs::cmp::PartialOrdIs;
use vstd::std_specs::cmp::PartialOrdSpec;

verus! {

/// `value` held between `min` and `max`: `min` where `value` is below it,
/// else `max` where `value` is above it, else `value` itself. Where a
/// comparison is undefined (the two are unordered) it counts as not below and
/// not above, so `value` passes through.
pub open spec fn clamp_spec<T: PartialOrd>(value: T, min: T, max: T) -> T {
    if value.is_lt(&min) {
        min
    } else if value.is_gt(&max) {
        max
    } else {
        value
    }
}

/// `bound` where `value` is at or below it, `value` otherwise.
pub open spec fn min_spec<T: PartialOrd>(value: T, bound: T) -> T {
    if value.is_le(&bound) {
        bound
    } else {
        value
    }
}

/// `bound` where `value` is at or above it, `value` otherwise.
pub open spec fn max_spec<T: PartialOrd>(value: T, bound: T) -> T {
    if value.is_ge(&bound) {
        bound
    } else {
        value
    }
}

/// Restricts `value` to the range from `min` to `max`. The lower bound is
/// tested first, so with `min` above `max` a value below `min` still yields
/// `min`.
pub fn clamp<T: PartialOrd>(value: T, min: T, max: T) -> (r: T)
    ensures
        T::obeys_partial_cmp_spec() ==> r == clamp_spec(value, min, max),
        exists|below: bool|
            {
                &&& #[trigger] call_ensures(T::lt, (&value, &min), below)
                &&& below ==> r == min
                &&& !below ==> exists|above: bool|
                    {
                        &&& #[trigger] call_ensures(T::gt, (&value, &max), above)
                        &&& r == if above { max } else { value }
                    }
            },
{
    if value < min {
        min
    } else if value > max {
        max
    } else {
        value
    }
}

/// Returns `bound` if `value <= bound`, and `value` otherwise.
pub fn min<T: PartialOrd>(value: T, bound: T) -> (r: T)
    ensures
        T::obeys_partial_cmp_spec() ==> r == min_spec(value, bound),
        exists|at_or_below: bool|
            {
                &&& #[trigger] call_ensures(T::le, (&value, &bound), at_or_below)
                &&& r == if at_or_below { bound } else { value }
            },
{
    if value <= bound {
        bound
    } else {
        value
    }
}

/// Returns `bound` if `value >= bound`, and `value` otherwise.
pub fn max<T: PartialOrd>(value: T, bound: T) -> (r: T)
    ensures
        T::obeys_partial_cmp_spec() ==> r == max_spec(value, bound),
        exists|at_or_above: bool|
            {
                &&& #[trigger] call_ensures(T::ge, (&value, &bound), at_or_above)
                &&& r == if at_or_above { bound } else { value }
            },
{
    if value >= bound {
        bound
    } else {
        value
    }
}

/// A tie and a value under the bound both give the bound: `min` answers with
/// `bound` exactly when `value` is at or below it (or is the bound already).
pub proof fn lemma_min_bias<T: PartialOrd>(value: T, bound: T)
    ensures
        value.is_le(&bound) ==> min_spec(value, bound) == bound,
        !value.is_le(&bound) ==> min_spec(value, bound) == value,
        min_spec(value, bound) == bound <==> value.is_le(&bound) || value == bound,
{
}

/// A tie and a value over the bound both give the bound: `max` answers with
/// `bound` exactly when `value` is at or above it (or is the bound already).
pub proof fn lemma_max_bias<T: PartialOrd>(value: T, bound: T)
    ensures
        value.is_ge(&bound) ==> max_spec(value, bound) == bound,
        !value.is_ge(&bound) ==> max_spec(value, bound) == value,
        max_spec(value, bound) == bound <==> value.is_ge(&bound) || value == bound,
{
}

/// On the integers the pair is inverted with respect to the usual meaning of
/// the names: `min` gives the larger argument, `max` the smaller one.
pub proof fn lemma_min_max_on_integers(value: i64, bound: i64)
    ensures
        min_spec(value, bound) == (if value <= bound { bound } else { value }),
        max_spec(value, bound) == (if value >= bound { bound } else { value }),
        min_spec(value, bound) >= value && min_spec(value, bound) >= bound,
        max_spec(value, bound) <= value && max_spec(value, bound) <= bound,
{
}

/// On the integers, with the bounds in order, `clamp` lands inside the range
/// and leaves a value that is already inside untouched.
pub proof fn lemma_clamp_on_integers(value: i64, min: i64, max: i64)
    ensures
        clamp_spec(value, min, max) == (if value < min { min } else if value > max { max } else { value }),
        min <= max ==> min <= clamp_spec(value, min, max) <= max,
        min <= value <= max ==> clamp_spec(value, min, max) == value,
{
}

} // verus!
