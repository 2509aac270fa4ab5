//! Conditionals, loops and `match`.

use vstd::prelude::*;
use vstd::string::*;
use crate::text::{decimal, to_decimal};

verus! {

/// What an age means for driving: old enough above 16, almost at 15 and 16,
/// and not yet below.
pub open spec fn license_message(age: u8) -> Seq<char> {
    if age > 16 {
        "User is old enough to drive!"@
    } else if age == 16 || age == 15 {
        "User is almost old enough to drive!"@
    } else {
        "User is not old enough to drive!"@
    }
}

/// Judges an age: the message to show, and whether the user holds a driver's
/// license, which is so above 16.
pub fn test_if(age_c: u8) -> (found: (&'static str, bool))
    ensures
        found.0@ == license_message(age_c),
        found.1 == (age_c > 16),
{
    let age: u8 = 16;
    let message = if age_c > age {
        "User is old enough to drive!"
    } else if age_c == 16 || age_c == 15 {
        "User is almost old enough to drive!"
    } else {
        "User is not old enough to drive!"
    };
    let drivers_license: bool = if age_c > 16 { true } else { false };
    (message, drivers_license)
}

/// Counts up towards 16 and leaves the loop early, at 6: the number of rounds
/// made.
pub fn test_while() -> (rounds: u8)
    ensures
        rounds == 6,
{
    let age: u8 = 16;
    let mut c_age: u8 = 0;
    while c_age < age
        invariant_except_break
            c_age < 6,
            age == 16,
        ensures
            c_age == 6,
        decreases age - c_age,
    {
        c_age += 1;
        if c_age == 6 {
            break;
        }
    }
    c_age
}

/// Loops without a condition and leaves once the counter has passed 5: the
/// number of rounds made.
pub fn test_loop() -> (rounds: u8)
    ensures
        rounds == 6,
{
    let mut x: u8 = 1;
    loop
        invariant_except_break
            1 <= x <= 6,
        ensures
            x == 6,
        decreases 6 - x,
    {
        if x > 5 {
            break;
        }
        x += 1;
    }
    x
}

/// The ages that `test_for` walks through.
pub open spec fn ages() -> Seq<u32> {
    seq![18u32, 16u32, 41u32, 35u32]
}

/// The line that says whether someone of age `x` may drive: above 16 they
/// may.
pub open spec fn eligibility_line(x: u32) -> Seq<char> {
    if x > 16 {
        "User is eligible to drive!: '"@ + decimal(x as nat) + "'"@
    } else {
        "User is not eligible to drive!: '"@ + decimal(x as nat) + "'"@
    }
}

/// One line for each of the four ages, in their order.
pub fn test_for() -> (lines: Vec<String>)
    ensures
        lines@.len() == ages().len(),
        forall|i: int| 0 <= i < ages().len() ==> (#[trigger] lines@[i])@ == eligibility_line(ages()[i]),
{
    let arr: [u32; 4] = [18, 16, 41, 35];
    assert(arr@ =~= ages());
    let mut lines: Vec<String> = Vec::new();
    for i in 0..4usize
        invariant
            arr@ == ages(),
            lines@.len() == i,
            forall|j: int| 0 <= j < i ==> (#[trigger] lines@[j])@ == eligibility_line(ages()[j]),
    {
        let x: u32 = arr[i];
        let mut line = if x > 16 {
            String::from_str("User is eligible to drive!: '")
        } else {
            String::from_str("User is not eligible to drive!: '")
        };
        line.append(to_decimal(x as u64).as_str());
        line.append("'");
        assert(line@ =~= eligibility_line(x));
        lines.push(line);
    }
    lines
}

/// The arm that a match on the literal 35 takes.
pub open spec fn literal_arm(age: u16) -> Seq<char> {
    if age == 35 {
        "This is a match!"@
    } else {
        "This isn't a match!"@
    }
}

/// The arm that a match on ranges takes: 1 to 35, 50 and above, or the rest.
pub open spec fn range_arm(age: u16) -> Seq<char> {
    if 1 <= age <= 35 {
        "This is within match!"@
    } else if age >= 50 {
        "This is above the match!"@
    } else {
        "This isn't a match!"@
    }
}

/// Matches the age 5 against a literal and then against ranges: what each
/// match answers.
pub fn test_match_int() -> (found: (&'static str, &'static str))
    ensures
        found.0@ == literal_arm(5),
        found.1@ == range_arm(5),
{
    let myage: u16 = 5;
    let by_literal = match myage {
        35 => "This is a match!",
        _ => "This isn't a match!",
    };
    let by_range = match myage {
        1..=35 => "This is within match!",
        50.. => "This is above the match!",
        _ => "This isn't a match!",
    };
    (by_literal, by_range)
}

/// Nothing to show yet.
pub fn let_conditionals() {
}

} // verus!
