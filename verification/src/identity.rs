use vstd::prelude::*;

verus! {

/// Specifies std's reflexive `impl<T> From<T> for T`, whose documentation
/// says that it returns the argument unchanged.
pub assume_specification<Value>[ <Value as std::convert::From<Value>>::from ](value: Value) -> (r: Value)
    ensures
        r == value,
;

} // verus!
