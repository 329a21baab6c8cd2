//! Decision logic for restoring focus to the previously active application
//! and pasting into it.
//!
//! The library never touches the operating system. It says which input action
//! comes next and what the outcome of the whole operation is; a driver outside
//! performs each action and reports back what happened.

pub mod error;
pub mod keys;
pub mod laws;
pub mod machine;
pub mod model;
pub mod plan;
