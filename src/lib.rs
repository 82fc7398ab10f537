//! A single-value, single-error settlement primitive.
//!
//! [`Swear`] is the state that every handle of a promise shares: a settlement
//! cell that is pending until it settles once, for good, to a value or to an
//! error, and two registries of callbacks waiting for either outcome. Its
//! operations never run a callback themselves: they hand back the callbacks that
//! are due, each paired with its own copy of the outcome, and the caller runs
//! them (one thread per callback, in the program around this library).
//!
//! [`history`] follows a promise through any sequence of calls and states what
//! holds whatever their order: it settles once, and each callback runs once.
pub mod history;
mod swear;

pub use crate::swear::{copies_of, Call, MyError, Swear, SwearState, SwearStatus, ThreadSafeClone};
