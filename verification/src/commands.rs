//! The handlers of the subcommands: what each one makes of the run of its
//! program, the one line that confirms a success or the error to end with.

pub mod create;
pub mod delete;
pub mod ls;
pub mod shutdown;
pub mod start;
pub mod stop;
