//! Container lifecycle operations for a command-line front-end to the LXC
//! toolset.
//!
//! The library decides; it never touches the system. For each operation it
//! says which external program to run and with which arguments, and, once the
//! caller has run it, what its exit means: success, or an error that names
//! the program and carries what it wrote to standard error. An in-memory
//! commander stands in for the toolset where callers must be exercised
//! without it.

pub mod cli;
pub mod commands;
pub mod lifecycle;
pub mod lxc;
pub mod mock;
