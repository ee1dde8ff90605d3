//! The rule that a value must be present.
use vstd::prelude::*;

verus! {

/// Whether the optional container holds a value.
pub fn is_not_null<T>(val: &Option<T>) -> (r: bool)
    ensures
        r == (val is Some),
{
    val.is_some()
}

} // verus!
