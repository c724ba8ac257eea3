//! Core logic of the Titan terminal: command dispatch, the IP probe that
//! parses the host's address listing, terminal styling text, and the exact
//! diagnostic lines reported for child-process outcomes.

pub mod command;
pub mod probe;
pub mod report;
pub mod style;
pub mod text;
