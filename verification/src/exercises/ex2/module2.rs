//! Animals, by name and by kind.

use vstd::prelude::*;
use vstd::string::*;

verus! {

/// The kinds of animal that can be told apart.
pub enum AnimalEnums {
    Dog,
    Cat,
    Cow,
    Pigeon,
}

/// What can be asked of an animal.
pub trait AnimalTrait {
    /// Whether the animal barks.
    fn does_animal_bark(&self) -> bool;

    /// Names the kind `animal` in a sentence.
    fn what_is_it(&self, animal: AnimalEnums) -> String;
}

/// An animal with a name, and whether it is known to bark.
#[derive(Debug)]
pub struct Animal {
    pub Name: String,
    pub Barks: bool,
}

/// The sentence that names a kind of animal.
pub open spec fn kind_sentence(animal: AnimalEnums) -> Seq<char> {
    match animal {
        AnimalEnums::Dog => "It's is a Dog!"@,
        AnimalEnums::Cat => "It's is a Cat!"@,
        AnimalEnums::Cow => "It's is a Cow!"@,
        AnimalEnums::Pigeon => "It's is a Pigeon!"@,
    }
}

impl AnimalTrait for Animal {
    /// Every animal is taken to bark, whatever its name and whatever `Barks`
    /// holds.
    fn does_animal_bark(&self) -> (barks: bool)
        ensures
            barks,
    {
        true
    }

    fn what_is_it(&self, animal: AnimalEnums) -> (sentence: String)
        ensures
            sentence@ == kind_sentence(animal),
    {
        match animal {
            AnimalEnums::Dog => String::from_str("It's is a Dog!"),
            AnimalEnums::Cat => String::from_str("It's is a Cat!"),
            AnimalEnums::Cow => String::from_str("It's is a Cow!"),
            AnimalEnums::Pigeon => String::from_str("It's is a Pigeon!"),
        }
    }
}

} // verus!
