//! Creating a container.

use crate::lxc::{answered, text_outcome};
use crate::lxc::{LxcError, Output, RealLxcCommander};
use vstd::prelude::*;
use vstd::string::*;

verus! {

/// The line that confirms that `name` was created from `template`.
pub open spec fn confirmation_text(name: Seq<char>, template: Seq<char>) -> Seq<char> {
    "Container "@ + name + " created with template "@ + template
}

/// Reads the run of `lxc-create` for `name` and `template`: the line that
/// confirms the creation, or the error that the run came to.
pub fn run(name: &str, template: &str, launched: Result<Output, String>) -> (result: Result<
    String,
    LxcError,
>)
    ensures
        text_outcome(result) == answered(
            "lxc-create"@,
            launched,
            confirmation_text(name@, template@),
        ),
{
    let commander = RealLxcCommander;
    match commander.create(launched) {
        Ok(_) => {
            let mut line = String::from_str("Container ");
            line.append(name);
            line.append(" created with template ");
            line.append(template);
            Ok(line)
        },
        Err(error) => Err(error),
    }
}

} // verus!
