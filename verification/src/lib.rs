//! Verified core of an anti-idle utility.
//!
//! The utility watches how long the user has been idle and, once a configured
//! threshold is exceeded, nudges the pointer through a virtual mouse. This
//! crate holds everything that can be decided without touching the operating
//! system: which input events an operation submits and in what order, what
//! the virtual device declares, how command-line values are validated, and
//! when the controller moves the pointer and by how much. The host program
//! performs the submissions, the pauses and the idle queries.

pub mod cli;
pub mod control;
pub mod input;
mod random;
