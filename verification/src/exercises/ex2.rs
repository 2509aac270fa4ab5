//! Options, enums that carry data, and structs with methods and traits.

use vstd::prelude::*;
use vstd::string::*;
use crate::text::{decimal, str_eq, to_decimal};

pub mod module2;

verus! {

/// Wraps a name in `Some`.
pub fn check_option_1(Name: String) -> (named: Option<String>)
    ensures
        named == Some(Name),
{
    let mut this_str: Option<String> = None;
    this_str = Some(Name);
    this_str
}

/// A reply that is either a message or an error, each with its text.
#[derive(Debug)]
pub enum ReturnType {
    AMessage(String),
    AnError(String),
}

/// A `ReturnType` with the characters of its text.
pub ghost enum ReturnTypeView {
    AMessage(Seq<char>),
    AnError(Seq<char>),
}

impl View for ReturnType {
    type V = ReturnTypeView;

    open spec fn view(&self) -> ReturnTypeView {
        match self {
            ReturnType::AMessage(text) => ReturnTypeView::AMessage(text@),
            ReturnType::AnError(text) => ReturnTypeView::AnError(text@),
        }
    }
}

/// The reply to a command: a message for `hello`, an error for `world`, and
/// another error for everything else.
pub open spec fn custom_reply(command: Seq<char>) -> ReturnTypeView {
    if command == "hello"@ {
        ReturnTypeView::AMessage("This is a Message!"@)
    } else if command == "world"@ {
        ReturnTypeView::AnError("This is an Error!"@)
    } else {
        ReturnTypeView::AnError("This is also an Error!"@)
    }
}

/// Answers a command.
pub fn check_custom(command: &str) -> (reply: ReturnType)
    ensures
        reply@ == custom_reply(command@),
{
    if str_eq(command, "hello") {
        ReturnType::AMessage(String::from_str("This is a Message!"))
    } else if str_eq(command, "world") {
        ReturnType::AnError(String::from_str("This is an Error!"))
    } else {
        ReturnType::AnError(String::from_str("This is also an Error!"))
    }
}

/// Wraps a reply in `Some`, whichever variant it is, with its text unchanged.
pub fn check_option_2(message: ReturnType) -> (wrapped: Option<ReturnType>)
    ensures
        wrapped == Some(message),
{
    match message {
        ReturnType::AMessage(r) => Some(ReturnType::AMessage(r)),
        ReturnType::AnError(r) => Some(ReturnType::AnError(r)),
    }
}

/// The area of a rectangle whose sides are whole numbers. The area must fit
/// in a `u8`.
pub fn rect_area(w: u8, h: u8) -> (area: u8)
    requires
        w * h <= u8::MAX,
    ensures
        area == w * h,
{
    w * h
}

/// What can be asked of a person.
pub trait PersonT {
    /// Whether the person may drive, in words.
    fn check_age(&self) -> String;
}

/// A person with a name and an age in years.
pub struct Person {
    pub Name: String,
    pub Age: u8,
}

/// The sentence that introduces a person.
pub open spec fn person_info(name: Seq<char>, age: nat) -> Seq<char> {
    "Person "@ + name + " is "@ + decimal(age) + " years old!"@
}

/// What an age means for driving: too young below 15, almost there at 15 and
/// 16, fine from 17 to 79, and past it at 0 and from 80 on.
pub open spec fn driving_status(age: u8) -> Seq<char> {
    if 1 <= age < 15 {
        "Person cannot drive!"@
    } else if age == 15 || age == 16 {
        "Person is almost ready to drive!"@
    } else if 17 <= age < 80 {
        "Person can drive!"@
    } else {
        "Person is prolly dead!"@
    }
}

impl Person {
    /// Introduces the person by name and age.
    pub fn display_info(&self) -> (info: String)
        ensures
            info@ == person_info(self.Name@, self.Age as nat),
    {
        let mut info: String = String::new();
        info.append("Person ");
        info.append(self.Name.as_str());
        info.append(" is ");
        info.append(to_decimal(self.Age as u64).as_str());
        info.append(" years old!");
        assert(info@ =~= person_info(self.Name@, self.Age as nat));
        info
    }
}

impl PersonT for Person {
    fn check_age(&self) -> (status: String)
        ensures
            status@ == driving_status(self.Age),
    {
        match self.Age {
            1..15 => String::from_str("Person cannot drive!"),
            15 | 16 => String::from_str("Person is almost ready to drive!"),
            16..80 => String::from_str("Person can drive!"),
            _ => String::from_str("Person is prolly dead!"),
        }
    }
}

} // verus!
