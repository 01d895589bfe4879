//! An interactive command shell's registry and execution engine: the flag
//! convention, the command abstraction, search-path discovery and dispatch,
//! each with a machine-checked contract.

pub mod commands;
pub mod platform;
pub mod session;
pub mod text;
