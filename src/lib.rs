//! Type, shape and status logic for an array-computation runtime binding.
//!
//! The native runtime itself is reached from the `app` layer; this crate holds
//! the value-level logic that decides what is handed to it and how its answers
//! are interpreted.

pub mod element;
pub mod error;
pub mod reduce;
pub mod rows;
pub mod shape;
pub mod status;
