//! What a ray decides once the geometry has been computed: which of the two
//! intersection parameters is reported as the hit distance, and which sphere
//! of a scene a ray resolves to.
//!
//! The parameters themselves come from a quadratic in floating point; this
//! module takes them as values of any ordered type and holds only the
//! decisions.

use vstd::prelude::*;
use vstd::std_specs::cmp::PartialOrdIs;
use vstd::std_specs::cmp::PartialOrdSpec;
use crate::util::clamp;
use crate::util::clamp_spec;
use crate::util::max;
use crate::util::max_spec;
use crate::util::min;
use crate::util::min_spec;

verus! {

/// The distance reported for a ray that meets a sphere at the parameters
/// `first` and `second`, with `floor` as the least distance accepted:
/// `min` of the two, clamped between `floor` and `max` of the two, each in
/// the bound-biased sense of [`crate::util`].
pub open spec fn hit_distance_spec<T: PartialOrd>(first: T, second: T, floor: T) -> T {
    clamp_spec(min_spec(first, second), floor, max_spec(first, second))
}

/// Selects the reported hit distance from the two intersection parameters.
///
/// The first clause gives the result for types whose comparisons follow
/// their `partial_cmp` specification. The second holds of every type: the
/// result is what `clamp` answers for what `min` and `max` answered. The last
/// says that no new value is made up.
pub fn hit_distance<T: PartialOrd + Copy>(first: T, second: T, floor: T) -> (r: T)
    ensures
        T::obeys_partial_cmp_spec() ==> r == hit_distance_spec(first, second, floor),
        exists|upper: T, value: T|
            {
                &&& #[trigger] call_ensures(max::<T>, (first, second), upper)
                &&& #[trigger] call_ensures(min::<T>, (first, second), value)
                &&& call_ensures(clamp::<T>, (value, floor, upper), r)
            },
        r == first || r == second || r == floor,
{
    let max_distance = max(first, second);
    let min_distance = min(first, second);
    clamp(min_distance, floor, max_distance)
}

/// With the two parameters in strict order, the selection is the smaller one,
/// unless the larger one lies below the floor, and then it is the floor. The
/// smaller parameter is not itself held to the floor: where only it is below,
/// it is reported as it stands.
pub proof fn lemma_hit_distance_of_ordered_pair<T: PartialOrd>(smaller: T, larger: T, floor: T)
    requires
        smaller.is_lt(&larger),
        larger.is_gt(&smaller),
    ensures
        hit_distance_spec(smaller, larger, floor) == (if larger.is_lt(&floor) {
            floor
        } else {
            smaller
        }),
        hit_distance_spec(larger, smaller, floor) == hit_distance_spec(smaller, larger, floor),
{
}

/// With two parameters that compare equal (a ray that grazes the sphere), the
/// selection is the second one, or the floor where the second is below it.
pub proof fn lemma_hit_distance_of_equal_pair<T: PartialOrd>(first: T, second: T, floor: T)
    requires
        first.is_le(&second),
        first.is_ge(&second),
    ensures
        hit_distance_spec(first, second, floor) == (if second.is_lt(&floor) {
            floor
        } else {
            second
        }),
{
}

/// Where the two parameters are unordered (one of them is not a number), the
/// first one is passed through, unless it is below the floor.
pub proof fn lemma_hit_distance_of_unordered_pair<T: PartialOrd>(first: T, second: T, floor: T)
    requires
        !first.is_le(&second),
        !first.is_ge(&second),
    ensures
        hit_distance_spec(first, second, floor) == (if first.is_lt(&floor) {
            floor
        } else {
            first
        }),
{
}

/// The selection read on the integers: the smaller parameter, or the floor
/// where both parameters are below it.
pub proof fn lemma_hit_distance_on_integers(first: i64, second: i64, floor: i64)
    ensures
        hit_distance_spec(first, second, floor) == (if first < floor && second < floor {
            floor
        } else if first <= second {
            first
        } else {
            second
        }),
{
}

/// `index` is the first position of `hits` that holds an intersection.
pub open spec fn is_first_hit<T>(hits: Seq<Option<T>>, index: int) -> bool {
    &&& 0 <= index < hits.len()
    &&& hits[index].is_some()
    &&& forall|j: int| 0 <= j < index ==> (#[trigger] hits[j]).is_none()
}

/// No position of `hits` holds an intersection.
pub open spec fn no_hit<T>(hits: Seq<Option<T>>) -> bool {
    forall|j: int| 0 <= j < hits.len() ==> (#[trigger] hits[j]).is_none()
}

/// Resolves a ray against a scene. `hits` holds, for each sphere in stored
/// order, the outcome of its intersection test; the answer is the position of
/// the first sphere that was hit, whatever the distances are, or `None` where
/// the ray meets no sphere and the background shows.
pub fn first_hit<T>(hits: &Vec<Option<T>>) -> (r: Option<usize>)
    ensures
        match r {
            Some(index) => is_first_hit(hits@, index as int),
            None => no_hit(hits@),
        },
{
    let mut i: usize = 0;
    while i < hits.len()
        invariant
            i <= hits.len(),
            forall|j: int| 0 <= j < i ==> (#[trigger] hits@[j]).is_none(),
        decreases hits.len() - i,
    {
        if hits[i].is_some() {
            return Some(i);
        }
        i += 1;
    }
    None
}

/// A scene has at most one first hit, and none where no sphere is hit: the
/// answer of [`first_hit`] is the only one that meets its contract.
pub proof fn lemma_first_hit_is_unique<T>(hits: Seq<Option<T>>, i: int, j: int)
    requires
        is_first_hit(hits, i),
    ensures
        is_first_hit(hits, j) ==> i == j,
        !no_hit(hits),
{
    if is_first_hit(hits, j) {
        if i < j {
            assert(hits[i].is_none());
        } else if j < i {
            assert(hits[j].is_none());
        }
    }
    if no_hit(hits) {
        assert(hits[i].is_none());
    }
}

/// Stored order decides, not distance: once a sphere is the first hit, it
/// stays the first hit whatever the spheres after it hold, also where one of
/// them is hit nearer to the ray's origin.
pub proof fn lemma_first_hit_ignores_later_spheres<T>(
    hits: Seq<Option<T>>,
    other: Seq<Option<T>>,
    index: int,
)
    requires
        is_first_hit(hits, index),
        index < other.len(),
        forall|j: int| 0 <= j <= index ==> other[j] == hits[j],
    ensures
        is_first_hit(other, index),
{
    assert forall|j: int| 0 <= j < index implies (#[trigger] other[j]).is_none() by {
        assert(other[j] == hits[j]);
    }
}

} // verus!
