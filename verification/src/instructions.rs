//! The instructions of the program, each as a decision on plain values.
//!
//! An instruction's type holds what the instruction reads from its
//! accounts; its handler decides, changes the records it holds, and
//! returns what the caller has to move or publish.

pub mod admin;
pub mod market;
