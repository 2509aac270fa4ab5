//! Structs, enums and traits that live in child modules, used from outside.

use vstd::prelude::*;
use vstd::string::*;
use crate::exercises::ex3::helpers::person_module::{Person, PersonTraits};

pub mod helpers;

verus! {

/// Builds John Doe, aged 22, and asks whether he may drive.
pub fn with_sp_use() -> (found: (Person, bool))
    ensures
        found.0.Name@ == "John Doe"@,
        found.0.Age == 22,
        found.0.Email@ == "johndoe@rust.com"@,
        found.0.DoB@ == "August 03 2003"@,
        found.1 == found.0.may_drive(),
        found.1,
{
    let person1 = Person {
        Name: String::from_str("John Doe"),
        Age: 22,
        Email: String::from_str("johndoe@rust.com"),
        DoB: String::from_str("August 03 2003"),
    };
    let age_check = PersonTraits::check_age(&person1);
    (person1, age_check)
}

} // verus!
