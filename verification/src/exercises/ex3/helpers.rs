//! The modules that the third exercise draws on, and the four directions.

use vstd::prelude::*;
use vstd::string::*;

pub mod person_module;
pub mod vehicle_module;

verus! {

/// The four points of the compass.
pub enum Direction {
    North,
    South,
    East,
    West,
}

impl Direction {
    /// Whether the direction runs north to south.
    pub open spec fn vertical(&self) -> bool {
        self is North || self is South
    }

    /// Says in a sentence whether the direction is vertical.
    pub fn is_vertical(&self) -> (sentence: String)
        ensures
            sentence@ == if self.vertical() {
                "Direction is Vertical!"@
            } else {
                "Direction is not Vertical!"@
            },
    {
        match self {
            Direction::North | Direction::South => String::from_str("Direction is Vertical!"),
            _ => String::from_str("Direction is not Vertical!"),
        }
    }
}

} // verus!
