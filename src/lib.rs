//! Discovery of MPRIS media players on a message bus and the decisions
//! that turn a requested action into bus calls.

pub mod discovery;
pub mod command;
pub mod run;
