//! Small capability traits, each with a verified contract: searching a text
//! for a pattern, splicing two values of one kind, drawing typed values from
//! a source of 32-bit numbers, and splitting a line into words.

pub mod pattern;
pub mod rng;
pub mod splice;
pub mod words;
