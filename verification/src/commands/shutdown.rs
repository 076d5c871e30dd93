//! Shutting a container down.

use crate::lxc::{about_container, answered, container_line, text_outcome};
use crate::lxc::{LxcError, Output, RealLxcCommander};
use vstd::prelude::*;

verus! {

/// The line that confirms what happened to `name`.
pub open spec fn confirmation_text(name: Seq<char>) -> Seq<char> {
    about_container(name, " shut down successfully"@)
}

/// Reads the run of `lxc-stop` on `name`: the line that confirms the shutdown,
/// or the error that the run came to.
pub fn run(name: &str, launched: Result<Output, String>) -> (result: Result<String, LxcError>)
    ensures
        text_outcome(result) == answered("lxc-stop"@, launched, confirmation_text(name@)),
{
    let commander = RealLxcCommander;
    match commander.shutdown(launched) {
        Ok(_) => Ok(container_line(name, " shut down successfully")),
        Err(error) => Err(error),
    }
}

} // verus!
