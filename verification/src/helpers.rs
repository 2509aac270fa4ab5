//! Helpers that live in a module of their own, and in its child modules.

use vstd::prelude::*;
use vstd::string::*;

pub mod agehelpers;
pub mod namehelpers;

verus! {

/// A first and a last name with one space between them.
pub open spec fn full_name(first_name: Seq<char>, last_name: Seq<char>) -> Seq<char> {
    first_name + " "@ + last_name
}

/// Joins a first and a last name.
pub fn get_name_mod(first_name: &str, last_name: &str) -> (name: String)
    ensures
        name@ == full_name(first_name@, last_name@),
{
    let mut full_name = String::from_str(first_name);
    full_name.append(" ");
    full_name.append(last_name);
    full_name
}

} // verus!
