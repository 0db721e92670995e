//! Small verified building blocks for beginner language concepts: bindings and
//! loops, ownership of text values, records with methods, enums with exhaustive
//! matching, and growable containers.

pub mod basics;
pub mod collection;
pub mod enums;
pub mod ownership;
pub mod rectangles;
pub mod structs;
