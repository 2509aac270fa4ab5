//! Helpers for ages.

use vstd::prelude::*;

verus! {

/// The age five years on, which must fit in a `u16`.
pub fn add_5_to_age(age: u16) -> (later: u16)
    requires
        age + 5 <= u16::MAX,
    ensures
        later == age + 5,
{
    age + 5
}

} // verus!
