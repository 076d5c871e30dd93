//! Listing the containers.

use crate::lxc::{answered, stdout_text, text_outcome};
use crate::lxc::{LxcError, Output, RealLxcCommander};
use vstd::prelude::*;

verus! {

/// Reads the run of `lxc-ls`: the listing to print, which is all that the
/// program wrote to standard output, or the error that the run came to.
pub fn run(launched: Result<Output, String>) -> (result: Result<String, LxcError>)
    ensures
        text_outcome(result) == answered("lxc-ls"@, launched, stdout_text(launched)),
{
    let commander = RealLxcCommander;
    commander.list(launched)
}

} // verus!
