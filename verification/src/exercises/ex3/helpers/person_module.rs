//! A person, and what can be asked of one.

use vstd::prelude::*;
use vstd::string::*;
use crate::exercises::ex2::person_info;
use crate::text::to_decimal;

verus! {

/// What can be asked of a person.
pub trait PersonTraits {
    /// Whether the person is of an age to drive.
    fn check_age(&self) -> bool;

    /// Introduces the person in a sentence.
    fn display_info(&self) -> String;
}

/// A person with contact details.
#[derive(Debug)]
pub struct Person {
    pub Name: String,
    pub Age: u8,
    pub Email: String,
    pub DoB: String,
}

impl Person {
    /// A person may drive from 17 to 79 years of age.
    pub open spec fn may_drive(&self) -> bool {
        17 <= self.Age <= 79
    }
}

impl PersonTraits for Person {
    fn check_age(&self) -> (allowed: bool)
        ensures
            allowed == self.may_drive(),
    {
        let PersonAge: u8 = self.Age;
        match PersonAge {
            ..=16 => false,
            17..=79 => true,
            _ => false,
        }
    }

    fn display_info(&self) -> (info: String)
        ensures
            info@ == person_info(self.Name@, self.Age as nat),
    {
        let mut info: String = String::from_str("Person ");
        info.append(self.Name.as_str());
        info.append(" is ");
        info.append(to_decimal(self.Age as u64).as_str());
        info.append(" years old!");
        assert(info@ =~= person_info(self.Name@, self.Age as nat));
        info
    }
}

} // verus!
