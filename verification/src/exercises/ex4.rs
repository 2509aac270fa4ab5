//! Generic parameters that are bound by marker traits.

use vstd::prelude::*;

verus! {

/// Marks a type as an animal.
pub trait Animal {
}

/// Marks a type as safe to keep as a pet.
pub trait NotDangerous {
}

/// An animal that is not safe to keep.
pub struct Bear {}

impl Animal for Bear {
}

/// Marks a type as a kind of job.
pub trait JobTypesTrait {
}

/// The jobs that are known.
pub enum JobTypesEnum {
    Accountant,
    Carpenter,
    Mechanic,
}

impl JobTypesTrait for JobTypesEnum {
}

/// The months of birth that are known.
pub enum BirthMonth {
    Jan,
    Aug,
    Nov,
}

/// Takes any animal, and only an animal: the bound is checked where the call
/// is written. The value is dropped.
pub fn accept_gen_args<T: Animal>(obj: T) {
}

} // verus!
