//! Functions that take arguments and return a value.

use vstd::prelude::*;
use vstd::string::*;
use crate::helpers::full_name;

verus! {

/// Joins a first and a last name.
pub fn get_name(first_name: &str, last_name: &str) -> (name: String)
    ensures
        name@ == full_name(first_name@, last_name@),
{
    let mut full_name = String::from_str(first_name);
    full_name.append(" ");
    full_name.append(last_name);
    full_name
}

} // verus!
