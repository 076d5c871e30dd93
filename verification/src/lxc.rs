//! The commander interface, the invocations of the LXC programs, and the
//! reading of what a finished program left behind.

use vstd::prelude::*;
use vstd::string::*;

verus! {

/// One run of an external program: its name and its arguments, in order.
#[derive(Debug, Clone, PartialEq, Eq)]
pub struct Invocation {
    pub program: String,
    pub args: Vec<String>,
}

/// An [`Invocation`] as text: the program's name and the argument list.
pub struct InvocationView {
    pub program: Seq<char>,
    pub args: Seq<Seq<char>>,
}

impl View for Invocation {
    type V = InvocationView;

    open spec fn view(&self) -> InvocationView {
        InvocationView { program: self.program@, args: self.args@.map_values(|arg: String| arg@) }
    }
}

/// `lxc-create -n <name> -t <template>`
pub open spec fn create_invocation(name: Seq<char>, template: Seq<char>) -> InvocationView {
    InvocationView { program: "lxc-create"@, args: seq!["-n"@, name, "-t"@, template] }
}

/// `lxc-start -n <name>`
pub open spec fn start_invocation(name: Seq<char>) -> InvocationView {
    InvocationView { program: "lxc-start"@, args: seq!["-n"@, name] }
}

/// `lxc-stop -n <name>`
pub open spec fn stop_invocation(name: Seq<char>) -> InvocationView {
    InvocationView { program: "lxc-stop"@, args: seq!["-n"@, name] }
}

/// `lxc-destroy -n <name>`
pub open spec fn delete_invocation(name: Seq<char>) -> InvocationView {
    InvocationView { program: "lxc-destroy"@, args: seq!["-n"@, name] }
}

/// `lxc-ls -f`
pub open spec fn list_invocation() -> InvocationView {
    InvocationView { program: "lxc-ls"@, args: seq!["-f"@] }
}

/// Shutting a container down runs the same program as stopping it.
pub open spec fn shutdown_invocation(name: Seq<char>) -> InvocationView {
    stop_invocation(name)
}

/// Runs `program` on the one container `name`.
fn on_container(program: &str, name: &str) -> (invocation: Invocation)
    ensures
        invocation@ == (InvocationView { program: program@, args: seq!["-n"@, name@] }),
{
    let mut args: Vec<String> = Vec::new();
    args.push(String::from_str("-n"));
    args.push(String::from_str(name));
    let invocation = Invocation { program: String::from_str(program), args };
    assert(invocation@.args =~= seq!["-n"@, name@]);
    invocation
}

/// The invocation that creates the container `name` from `template`.
pub fn lxc_create(name: &str, template: &str) -> (invocation: Invocation)
    ensures
        invocation@ == create_invocation(name@, template@),
{
    let mut args: Vec<String> = Vec::new();
    args.push(String::from_str("-n"));
    args.push(String::from_str(name));
    args.push(String::from_str("-t"));
    args.push(String::from_str(template));
    let invocation = Invocation { program: String::from_str("lxc-create"), args };
    assert(invocation@.args =~= seq!["-n"@, name@, "-t"@, template@]);
    invocation
}

/// The invocation that starts the container `name`.
pub fn lxc_start(name: &str) -> (invocation: Invocation)
    ensures
        invocation@ == start_invocation(name@),
{
    on_container("lxc-start", name)
}

/// The invocation that stops the container `name`.
pub fn lxc_stop(name: &str) -> (invocation: Invocation)
    ensures
        invocation@ == stop_invocation(name@),
{
    on_container("lxc-stop", name)
}

/// The invocation that destroys the container `name`.
pub fn lxc_delete(name: &str) -> (invocation: Invocation)
    ensures
        invocation@ == delete_invocation(name@),
{
    on_container("lxc-destroy", name)
}

/// The invocation that lists the containers of the system.
pub fn lxc_list() -> (invocation: Invocation)
    ensures
        invocation@ == list_invocation(),
{
    let mut args: Vec<String> = Vec::new();
    args.push(String::from_str("-f"));
    let invocation = Invocation { program: String::from_str("lxc-ls"), args };
    assert(invocation@.args =~= seq!["-f"@]);
    invocation
}

/// The invocation that shuts the container `name` down.
pub fn lxc_shutdown(name: &str) -> (invocation: Invocation)
    ensures
        invocation@ == shutdown_invocation(name@),
{
    on_container("lxc-stop", name)
}

/// What a program that ran to its end left behind.
#[derive(Debug, Clone, PartialEq, Eq)]
pub struct Output {
    /// Whether the exit status reports success.
    pub success: bool,
    /// Everything the program wrote to standard output.
    pub stdout: Vec<u8>,
    /// Everything the program wrote to standard error.
    pub stderr: Vec<u8>,
}

/// Why an operation failed.
#[derive(Debug, Clone, PartialEq, Eq)]
pub enum LxcError {
    /// The program could not be started at all; `reason` is the cause that
    /// the system gave.
    LaunchFailed { program: String, reason: String },
    /// The program ran and exited unsuccessfully.
    CommandFailed { program: String, stderr: String },
    /// A container of that name is already there.
    AlreadyExists { name: String },
    /// The container is running already.
    AlreadyRunning { name: String },
    /// The container is stopped already.
    AlreadyStopped { name: String },
    /// No container of that name is known.
    DoesNotExist { name: String },
    /// The container is unknown, or known and was never started.
    NotRunning { name: String },
    /// The container runs and has to be stopped first.
    IsRunning { name: String },
}

/// An [`LxcError`] with its texts as character sequences.
pub enum LxcErrorView {
    LaunchFailed { program: Seq<char>, reason: Seq<char> },
    CommandFailed { program: Seq<char>, stderr: Seq<char> },
    AlreadyExists { name: Seq<char> },
    AlreadyRunning { name: Seq<char> },
    AlreadyStopped { name: Seq<char> },
    DoesNotExist { name: Seq<char> },
    NotRunning { name: Seq<char> },
    IsRunning { name: Seq<char> },
}

impl View for LxcError {
    type V = LxcErrorView;

    open spec fn view(&self) -> LxcErrorView {
        match self {
            LxcError::LaunchFailed { program, reason } => LxcErrorView::LaunchFailed {
                program: program@,
                reason: reason@,
            },
            LxcError::CommandFailed { program, stderr } => LxcErrorView::CommandFailed {
                program: program@,
                stderr: stderr@,
            },
            LxcError::AlreadyExists { name } => LxcErrorView::AlreadyExists { name: name@ },
            LxcError::AlreadyRunning { name } => LxcErrorView::AlreadyRunning { name: name@ },
            LxcError::AlreadyStopped { name } => LxcErrorView::AlreadyStopped { name: name@ },
            LxcError::DoesNotExist { name } => LxcErrorView::DoesNotExist { name: name@ },
            LxcError::NotRunning { name } => LxcErrorView::NotRunning { name: name@ },
            LxcError::IsRunning { name } => LxcErrorView::IsRunning { name: name@ },
        }
    }
}

/// `Container <name><rest>`, the shape of every line about one container.
pub open spec fn about_container(name: Seq<char>, rest: Seq<char>) -> Seq<char> {
    "Container "@ + name + rest
}

impl LxcErrorView {
    /// The text that reports the error to a person. A failed launch names
    /// the program only: why it failed is the cause behind the message.
    pub open spec fn message(self) -> Seq<char> {
        match self {
            LxcErrorView::LaunchFailed { program, .. } => "Failed to execute "@ + program,
            LxcErrorView::CommandFailed { program, stderr } => program + " failed: "@ + stderr,
            LxcErrorView::AlreadyExists { name } => about_container(name, " already exists"@),
            LxcErrorView::AlreadyRunning { name } => about_container(name, " already running"@),
            LxcErrorView::AlreadyStopped { name } => about_container(name, " already stopped"@),
            LxcErrorView::DoesNotExist { name } => about_container(name, " does not exist"@),
            LxcErrorView::NotRunning { name } => about_container(
                name,
                " does not exist or is not running"@,
            ),
            LxcErrorView::IsRunning { name } => about_container(name, " is running, stop first"@),
        }
    }

    /// The cause behind the error, where it has one: the reason why a
    /// program could not be started.
    pub open spec fn cause(self) -> Option<Seq<char>> {
        match self {
            LxcErrorView::LaunchFailed { reason, .. } => Some(reason),
            _ => None,
        }
    }
}

/// Builds `Container <name><rest>`.
pub(crate) fn container_line(name: &str, rest: &str) -> (line: String)
    ensures
        line@ == about_container(name@, rest@),
{
    let mut line = String::from_str("Container ");
    line.append(name);
    line.append(rest);
    line
}

impl LxcError {
    /// The text that reports the error to a person. A failed launch names
    /// the program only: why it failed is the [`cause`](Self::cause).
    pub fn message(&self) -> (text: String)
        ensures
            text@ == self@.message(),
    {
        match self {
            LxcError::LaunchFailed { program, .. } => {
                let mut text = String::from_str("Failed to execute ");
                text.append(program.as_str());
                text
            },
            LxcError::CommandFailed { program, stderr } => {
                let mut text = program.clone();
                text.append(" failed: ");
                text.append(stderr.as_str());
                text
            },
            LxcError::AlreadyExists { name } => container_line(name.as_str(), " already exists"),
            LxcError::AlreadyRunning { name } => container_line(name.as_str(), " already running"),
            LxcError::AlreadyStopped { name } => container_line(name.as_str(), " already stopped"),
            LxcError::DoesNotExist { name } => container_line(name.as_str(), " does not exist"),
            LxcError::NotRunning { name } => container_line(
                name.as_str(),
                " does not exist or is not running",
            ),
            LxcError::IsRunning { name } => container_line(
                name.as_str(),
                " is running, stop first",
            ),
        }
    }

    /// The cause behind the error, where it has one: the reason why a
    /// program could not be started.
    pub fn cause(&self) -> (cause: Option<String>)
        ensures
            match self@.cause() {
                Some(reason) => cause matches Some(text) && text@ == reason,
                None => cause is None,
            },
    {
        match self {
            LxcError::LaunchFailed { reason, .. } => Some(reason.clone()),
            _ => None,
        }
    }
}

/// The text that `String::from_utf8_lossy` makes of `bytes`.
pub uninterp spec fn utf8_lossy(bytes: Seq<u8>) -> Seq<char>;

/// Calls `String::from_utf8_lossy`, which reads `bytes` as UTF-8 and puts
/// U+FFFD in place of each ill-formed sequence. The contract names that text
/// and adds what std documents of well-formed input: it comes back as the
/// text it spells, unchanged.
#[verifier::external_body]
fn lossy_text(bytes: &Vec<u8>) -> (text: String)
    ensures
        text@ == utf8_lossy(bytes@),
        vstd::utf8::valid_utf8(bytes@) ==> text@ == vstd::utf8::decode_utf8(bytes@),
{
    String::from_utf8_lossy(bytes).into_owned()
}

/// The text held in `bytes`: what they spell where they are well-formed
/// UTF-8, and otherwise what `String::from_utf8_lossy` makes of them.
pub open spec fn text_of(bytes: Seq<u8>) -> Seq<char> {
    if vstd::utf8::valid_utf8(bytes) {
        vstd::utf8::decode_utf8(bytes)
    } else {
        utf8_lossy(bytes)
    }
}

/// Why running `program` failed, if it did. `launched` is what the attempt to
/// run it gave: the reason why it could not be started, or what it left
/// behind when it exited.
pub open spec fn failure(program: Seq<char>, launched: Result<Output, String>) -> Option<
    LxcErrorView,
> {
    match launched {
        Err(reason) => Some(LxcErrorView::LaunchFailed { program, reason: reason@ }),
        Ok(output) => if output.success {
            None
        } else {
            Some(LxcErrorView::CommandFailed { program, stderr: text_of(output.stderr@) })
        },
    }
}

/// What running `program` comes to when nothing of its output is kept.
pub open spec fn completed(program: Seq<char>, launched: Result<Output, String>) -> Result<
    (),
    LxcErrorView,
> {
    match failure(program, launched) {
        Some(error) => Err(error),
        None => Ok(()),
    }
}

/// What running `program` comes to when a success is answered with `text`.
pub open spec fn answered(
    program: Seq<char>,
    launched: Result<Output, String>,
    text: Seq<char>,
) -> Result<Seq<char>, LxcErrorView> {
    match failure(program, launched) {
        Some(error) => Err(error),
        None => Ok(text),
    }
}

/// What the program wrote to standard output, read as text.
pub open spec fn stdout_text(launched: Result<Output, String>) -> Seq<char> {
    match launched {
        Ok(output) => text_of(output.stdout@),
        Err(_) => Seq::empty(),
    }
}

/// A result without payload, its error taken by its view.
pub open spec fn outcome(result: Result<(), LxcError>) -> Result<(), LxcErrorView> {
    match result {
        Ok(_) => Ok(()),
        Err(error) => Err(error@),
    }
}

/// A result whose payload is a text, both sides taken by their views.
pub open spec fn text_outcome(result: Result<String, LxcError>) -> Result<Seq<char>, LxcErrorView> {
    match result {
        Ok(text) => Ok(text@),
        Err(error) => Err(error@),
    }
}

/// The six lifecycle operations on containers.
///
/// The trait promises nothing of an implementation: what an operation does
/// is stated by each implementor.
pub trait LxcCommander {
    /// Creates the container `name` from `template`.
    fn create(&mut self, name: &str, template: &str) -> Result<(), LxcError>;

    /// Starts the container `name`.
    fn start(&mut self, name: &str) -> Result<(), LxcError>;

    /// Stops the container `name`.
    fn stop(&mut self, name: &str) -> Result<(), LxcError>;

    /// Deletes the container `name`.
    fn delete(&mut self, name: &str) -> Result<(), LxcError>;

    /// Lists the containers as text.
    fn list(&self) -> Result<String, LxcError>;

    /// Shuts the container `name` down.
    fn shutdown(&mut self, name: &str) -> Result<(), LxcError>;
}

/// The commander behind the LXC programs. It keeps no state: each method
/// reads what one finished invocation means for the operation it stands for.
#[derive(Debug, Clone, Copy, Default)]
pub struct RealLxcCommander;

impl RealLxcCommander {
    /// Judges one run of `program`. A program that could not be started, or
    /// that exited unsuccessfully, is an error that names it; the second
    /// carries what it wrote to standard error. Otherwise the output is
    /// handed on.
    pub fn execute_command(&self, program: &str, launched: Result<Output, String>) -> (result:
        Result<Output, LxcError>)
        ensures
            match failure(program@, launched) {
                Some(error) => result matches Err(e) && e@ == error,
                None => launched matches Ok(output) && result == Ok::<Output, LxcError>(output),
            },
    {
        match launched {
            Err(reason) => Err(LxcError::LaunchFailed { program: String::from_str(program), reason }),
            Ok(output) => {
                if output.success {
                    Ok(output)
                } else {
                    let stderr = lossy_text(&output.stderr);
                    Err(LxcError::CommandFailed { program: String::from_str(program), stderr })
                }
            },
        }
    }

    /// Judges one run of `program` of which only the exit matters.
    fn conclude(&self, program: &str, launched: Result<Output, String>) -> (result: Result<
        (),
        LxcError,
    >)
        ensures
            outcome(result) == completed(program@, launched),
    {
        match self.execute_command(program, launched) {
            Ok(_) => Ok(()),
            Err(error) => Err(error),
        }
    }

    /// What a run of `lxc-create` means for the creation it was started for.
    pub fn create(&self, launched: Result<Output, String>) -> (result: Result<(), LxcError>)
        ensures
            outcome(result) == completed("lxc-create"@, launched),
    {
        self.conclude("lxc-create", launched)
    }

    /// What a run of `lxc-start` means for the start it was started for.
    pub fn start(&self, launched: Result<Output, String>) -> (result: Result<(), LxcError>)
        ensures
            outcome(result) == completed("lxc-start"@, launched),
    {
        self.conclude("lxc-start", launched)
    }

    /// What a run of `lxc-stop` means for the stop it was started for.
    pub fn stop(&self, launched: Result<Output, String>) -> (result: Result<(), LxcError>)
        ensures
            outcome(result) == completed("lxc-stop"@, launched),
    {
        self.conclude("lxc-stop", launched)
    }

    /// What a run of `lxc-destroy` means for the deletion it was started for.
    pub fn delete(&self, launched: Result<Output, String>) -> (result: Result<(), LxcError>)
        ensures
            outcome(result) == completed("lxc-destroy"@, launched),
    {
        self.conclude("lxc-destroy", launched)
    }

    /// What a run of `lxc-ls` means for the listing: on success, all that it
    /// wrote to standard output, as text.
    pub fn list(&self, launched: Result<Output, String>) -> (result: Result<String, LxcError>)
        ensures
            text_outcome(result) == answered("lxc-ls"@, launched, stdout_text(launched)),
    {
        match self.execute_command("lxc-ls", launched) {
            Ok(output) => Ok(lossy_text(&output.stdout)),
            Err(error) => Err(error),
        }
    }

    /// What a run of `lxc-stop` means for the shutdown it was started for.
    pub fn shutdown(&self, launched: Result<Output, String>) -> (result: Result<(), LxcError>)
        ensures
            outcome(result) == completed("lxc-stop"@, launched),
    {
        self.conclude("lxc-stop", launched)
    }
}

} // verus!
