//! The numbered exercises.

pub mod ex1;
pub mod ex2;
pub mod ex3;
pub mod ex4;
