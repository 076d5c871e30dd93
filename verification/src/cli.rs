//! The subcommands of the command line, and the routing of each to its
//! program and its handler.

use crate::commands;
use crate::lxc::{
    answered, create_invocation, delete_invocation, list_invocation, lxc_create, lxc_delete,
    lxc_list, lxc_shutdown, lxc_start, lxc_stop, shutdown_invocation, start_invocation,
    stdout_text, stop_invocation, text_outcome, Invocation, InvocationView, LxcError,
    LxcErrorView, Output,
};
use vstd::prelude::*;

verus! {

/// A parsed command line.
#[derive(Debug, Clone, PartialEq, Eq)]
pub struct Cli {
    pub command: Commands,
}

/// The subcommands with their parameters.
#[derive(Debug, Clone, PartialEq, Eq)]
pub enum Commands {
    /// Creates a new container from a template.
    Create { name: String, template: String },
    /// Starts a container.
    Start { name: String },
    /// Stops a container.
    Stop { name: String },
    /// Deletes a container.
    Delete { name: String },
    /// Lists the containers of the system.
    Ls,
    /// Shuts a container down.
    Shutdown { name: String },
}

impl Commands {
    /// The program that the subcommand runs, with its arguments.
    pub open spec fn planned(&self) -> InvocationView {
        match self {
            Commands::Create { name, template } => create_invocation(name@, template@),
            Commands::Start { name } => start_invocation(name@),
            Commands::Stop { name } => stop_invocation(name@),
            Commands::Delete { name } => delete_invocation(name@),
            Commands::Ls => list_invocation(),
            Commands::Shutdown { name } => shutdown_invocation(name@),
        }
    }

    /// What the subcommand prints once its program has run, or the error
    /// that it ends with.
    pub open spec fn concluded(&self, launched: Result<Output, String>) -> Result<
        Seq<char>,
        LxcErrorView,
    > {
        answered(
            self.planned().program,
            launched,
            match self {
                Commands::Create { name, template } => commands::create::confirmation_text(
                    name@,
                    template@,
                ),
                Commands::Start { name } => commands::start::confirmation_text(name@),
                Commands::Stop { name } => commands::stop::confirmation_text(name@),
                Commands::Delete { name } => commands::delete::confirmation_text(name@),
                Commands::Ls => stdout_text(launched),
                Commands::Shutdown { name } => commands::shutdown::confirmation_text(name@),
            },
        )
    }

    /// The invocation that carries the subcommand out.
    pub fn invocation(&self) -> (invocation: Invocation)
        ensures
            invocation@ == self.planned(),
    {
        match self {
            Commands::Create { name, template } => lxc_create(name.as_str(), template.as_str()),
            Commands::Start { name } => lxc_start(name.as_str()),
            Commands::Stop { name } => lxc_stop(name.as_str()),
            Commands::Delete { name } => lxc_delete(name.as_str()),
            Commands::Ls => lxc_list(),
            Commands::Shutdown { name } => lxc_shutdown(name.as_str()),
        }
    }

    /// Hands the run of the subcommand's program to its handler: the text to
    /// print on success, or the error to end with.
    pub fn run(&self, launched: Result<Output, String>) -> (result: Result<String, LxcError>)
        ensures
            text_outcome(result) == self.concluded(launched),
    {
        match self {
            Commands::Create { name, template } => commands::create::run(
                name.as_str(),
                template.as_str(),
                launched,
            ),
            Commands::Start { name } => commands::start::run(name.as_str(), launched),
            Commands::Stop { name } => commands::stop::run(name.as_str(), launched),
            Commands::Delete { name } => commands::delete::run(name.as_str(), launched),
            Commands::Ls => commands::ls::run(launched),
            Commands::Shutdown { name } => commands::shutdown::run(name.as_str(), launched),
        }
    }
}

} // verus!
