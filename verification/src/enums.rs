//! `Option`, enums of one's own, and methods on them.

use vstd::prelude::*;
use vstd::string::*;

verus! {

/// An option that starts empty and is then filled with 10.
pub fn test_op_int() -> (op: Option<u8>)
    ensures
        op == Some(10u8),
{
    let mut op1: Option<u8> = None;
    op1 = Some(10);
    op1
}

/// An option that starts empty and is then filled with a string.
pub fn test_op_str() -> (op: Option<String>)
    ensures
        op is Some,
        op->0@ == "Name"@,
{
    let mut op: Option<String> = None;
    op = Some(String::from_str("Name"));
    op
}

/// The four points of the compass.
pub enum Direction {
    North,
    South,
    East,
    West,
}

/// The sentence that names a direction.
pub open spec fn direction_sentence(direction: Direction) -> Seq<char> {
    match direction {
        Direction::North => "This is the north direction"@,
        Direction::South => "This is the south direction"@,
        Direction::East => "This is the east direction"@,
        Direction::West => "This is the west direction"@,
    }
}

/// Names a direction in a sentence.
pub fn test_op_directions(direction: Direction) -> (sentence: &'static str)
    ensures
        sentence@ == direction_sentence(direction),
{
    match direction {
        Direction::North => "This is the north direction",
        Direction::South => "This is the south direction",
        Direction::East => "This is the east direction",
        Direction::West => "This is the west direction",
    }
}

impl Direction {
    /// Whether a direction runs north to south; the answer is always there.
    pub fn check_if_vertical(direction: Direction) -> (vertical: Option<bool>)
        ensures
            vertical == Some(direction is North || direction is South),
    {
        match direction {
            Direction::North | Direction::South => Some(true),
            _ => Some(false),
        }
    }
}

/// Asks whether north is vertical, and takes the answer out of its option.
pub fn test_direct_impl() -> (vertical: bool)
    ensures
        vertical,
{
    let direction = Direction::North;
    Direction::check_if_vertical(direction).unwrap()
}

} // verus!
