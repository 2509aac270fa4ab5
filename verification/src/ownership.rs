//! Moving, borrowing and cloning a value.

use vstd::prelude::*;
use vstd::string::*;

verus! {

/// Moves a string to a new owner, borrows it there, and clones it: the owner
/// and the clone, which hold the same characters.
pub fn test_ownership() -> (owned: (String, String))
    ensures
        owned.0@ == "This has a value!"@,
        owned.1@ == owned.0@,
{
    let s1 = String::from_str("This has a value!");
    let s2 = s1;
    let s3 = &s2;
    let s4 = s3.clone();
    (s2, s4)
}

} // verus!
