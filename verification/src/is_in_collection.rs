//! The rule that a value must be one of a given collection.
use vstd::prelude::*;
use vstd::std_specs::cmp::PartialEqSpec;

verus! {

/// Whether some item of `collection` equals `value`, by the equality of `T`.
pub open spec fn holds<T: PartialEq>(collection: Seq<T>, value: T) -> bool {
    exists|i: int| 0 <= i < collection.len() && (#[trigger] collection[i]).eq_spec(&value)
}

/// Whether the given value is part of the given collection.
///
/// Where the equality of `T` is one that can be reasoned about, the result is
/// exactly whether an equal item occurs; for any `T`, nothing is found in an
/// empty collection.
pub fn is_in_collection<T>(value: T, collection: Vec<T>) -> (r: bool) where
    T: PartialEq + PartialOrd,

    ensures
        T::obeys_eq_spec() ==> r == holds(collection@, value),
        r ==> collection@.len() > 0,
{
    let n: usize = collection.len();
    let mut i: usize = 0;
    while i < n
        invariant
            n == collection@.len(),
            i <= n,
            T::obeys_eq_spec() ==> forall|j: int|
                0 <= j < i ==> !(#[trigger] collection@[j]).eq_spec(&value),
        decreases n - i,
    {
        if collection[i].eq(&value) {
            return true;
        }
        i += 1;
    }
    false
}

} // verus!
