//! Structs: building them, changing them, and methods on them.

use vstd::prelude::*;
use vstd::string::*;
use crate::text::{decimal, to_decimal};

verus! {

/// A user with a name and an age in years.
#[derive(Debug)]
pub struct Person {
    pub Name: String,
    pub Age: u16,
}

/// The sentence that gives a user's name and age.
pub open spec fn full_details(name: Seq<char>, age: nat) -> Seq<char> {
    "User's name is "@ + name + " and is "@ + decimal(age) + " years old!"@
}

impl Person {
    /// The user's name and age, in a sentence.
    pub fn get_full_details(&self) -> (details: String)
        ensures
            details@ == full_details(self.Name@, self.Age as nat),
    {
        let mut details = String::from_str("User's name is ");
        details.append(self.Name.as_str());
        details.append(" and is ");
        details.append(to_decimal(self.Age as u64).as_str());
        details.append(" years old!");
        assert(details@ =~= full_details(self.Name@, self.Age as nat));
        details
    }
}

/// The makers that are known.
#[derive(Debug)]
pub enum VehicleMan {
    Toyota,
    Mercedes,
    Volks,
}

/// The colours a vehicle comes in.
#[derive(Debug)]
pub enum VehicleColor {
    Red,
    Silver,
    Blue,
    Black,
    White,
    Green,
}

/// A vehicle with its maker, model and colour.
#[derive(Debug)]
pub struct Vehicle {
    pub manufacturer: VehicleMan,
    pub model: String,
    pub color: VehicleColor,
}

/// A vehicle made of the three parts given.
pub fn new_vehicle(man: VehicleMan, model: String, color: VehicleColor) -> (vehicle: Vehicle)
    ensures
        vehicle == (Vehicle { manufacturer: man, model: model, color: color }),
{
    let v1 = Vehicle { manufacturer: man, model: model, color: color };
    v1
}

/// Builds three users, renames the second from John to Doe, and gives the
/// details of each: John aged 22, Doe aged 30 and Kevin aged 35.
pub fn test_structs() -> (details: Vec<String>)
    ensures
        details@.len() == 3,
        details@[0]@ == full_details("John"@, 22),
        details@[1]@ == full_details("Doe"@, 30),
        details@[2]@ == full_details("Kevin"@, 35),
{
    let person1 = Person { Name: String::from_str("John"), Age: 22 };
    let mut person2 = Person { Name: String::from_str("John"), Age: 30 };
    person2.Name = String::from_str("Doe");
    let person3 = Person { Name: String::from_str("Kevin"), Age: 35 };

    let mut details: Vec<String> = Vec::new();
    details.push(Person::get_full_details(&person1));
    details.push(Person::get_full_details(&person2));
    details.push(Person::get_full_details(&person3));
    details
}

/// A person as a tuple struct: the name, then the age.
#[derive(Debug)]
pub struct PersonTuple(pub String, pub u8);

/// Builds John Doe, aged 36, as a tuple struct.
pub fn test_tup_struct() -> (person_tup: PersonTuple)
    ensures
        person_tup.0@ == "John Doe"@,
        person_tup.1 == 36,
{
    let person_tup: PersonTuple = PersonTuple(String::from_str("John Doe"), 36);
    person_tup
}

} // verus!
