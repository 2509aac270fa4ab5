//! Small, self-contained Rust exercises, each stated with a contract and
//! proved with Verus.
//!
//! The modules follow the topics of a first course: values and functions,
//! control flow, enums and structs, options and results, closures, generics
//! and vectors, smart pointers, and the state that threads share. The
//! numbered exercises stand under `exercises`; `text` holds what several of
//! them need to compare and build strings.

#![allow(non_snake_case)]

pub mod advanced_concepts;
pub mod closures;
pub mod control_flow;
pub mod enums;
pub mod exercises;
pub mod functions;
pub mod helpers;
pub mod ownership;
pub mod results;
pub mod smart_pointers;
pub mod structs;
pub mod text;
pub mod threading;
