use rust_lxc::lxc::{LxcError, Output, RealLxcCommander};

fn exited(success: bool, stdout: &[u8], stderr: &[u8]) -> Result<Output, String> {
    Ok(Output { success, stdout: stdout.to_vec(), stderr: stderr.to_vec() })
}

fn not_started(reason: &str) -> Result<Output, String> {
    Err(reason.to_string())
}

fn command_failed(program: &str, stderr: &str) -> LxcError {
    LxcError::CommandFailed { program: program.to_string(), stderr: stderr.to_string() }
}

fn launch_failed(program: &str, reason: &str) -> LxcError {
    LxcError::LaunchFailed { program: program.to_string(), reason: reason.to_string() }
}

#[test]
fn a_successful_run_hands_its_output_on() {
    let commander = RealLxcCommander;
    let result = commander.execute_command("lxc-ls", exited(true, b"web\n", b"a warning\n"));
    assert_eq!(
        result,
        Ok(Output { success: true, stdout: b"web\n".to_vec(), stderr: b"a warning\n".to_vec() })
    );
}

#[test]
fn an_unsuccessful_exit_is_an_error_with_the_program_and_stderr() {
    let commander = RealLxcCommander;
    let result = commander.execute_command("lxc-start", exited(false, b"ignored", b"no such container\n"));
    assert_eq!(result, Err(command_failed("lxc-start", "no such container\n")));
    assert_eq!(result.unwrap_err().message(), "lxc-start failed: no such container\n");
}

#[test]
fn an_unsuccessful_exit_without_stderr_still_names_the_program() {
    let commander = RealLxcCommander;
    let result = commander.execute_command("lxc-stop", exited(false, b"", b""));
    assert_eq!(result, Err(command_failed("lxc-stop", "")));
    assert_eq!(result.unwrap_err().message(), "lxc-stop failed: ");
}

#[test]
fn a_failed_launch_is_an_error_with_the_program_and_the_reason() {
    let commander = RealLxcCommander;
    let result = commander.execute_command("lxc-create", not_started("No such file or directory (os error 2)"));
    assert_eq!(result, Err(launch_failed("lxc-create", "No such file or directory (os error 2)")));
    let error = result.unwrap_err();
    assert_eq!(error.message(), "Failed to execute lxc-create");
    assert_eq!(error.cause(), Some("No such file or directory (os error 2)".to_string()));
}

#[test]
fn a_failed_launch_of_lxc_start_names_the_program_alone() {
    let commander = RealLxcCommander;
    let error = commander.start(not_started("not found")).unwrap_err();
    assert_eq!(error, launch_failed("lxc-start", "not found"));
    assert_eq!(error.message(), "Failed to execute lxc-start");
    assert_eq!(error.cause(), Some("not found".to_string()));
}

#[test]
fn only_a_failed_launch_has_a_cause() {
    let name = || "web".to_string();
    assert_eq!(command_failed("lxc-ls", "boom").cause(), None);
    assert_eq!(LxcError::AlreadyExists { name: name() }.cause(), None);
    assert_eq!(LxcError::AlreadyRunning { name: name() }.cause(), None);
    assert_eq!(LxcError::AlreadyStopped { name: name() }.cause(), None);
    assert_eq!(LxcError::DoesNotExist { name: name() }.cause(), None);
    assert_eq!(LxcError::NotRunning { name: name() }.cause(), None);
    assert_eq!(LxcError::IsRunning { name: name() }.cause(), None);
    assert_eq!(launch_failed("lxc-ls", "").cause(), Some(String::new()));
}

#[test]
fn stderr_that_is_not_utf8_is_read_with_replacement_characters() {
    let commander = RealLxcCommander;
    let result = commander.execute_command("lxc-start", exited(false, b"", b"bad \xff byte"));
    assert_eq!(result, Err(command_failed("lxc-start", "bad \u{fffd} byte")));
}

#[test]
fn stderr_that_is_utf8_is_kept_as_written() {
    let commander = RealLxcCommander;
    let result = commander.execute_command("lxc-start", exited(false, b"", "gr\u{fc}\u{df}e \u{2603}".as_bytes()));
    assert_eq!(result, Err(command_failed("lxc-start", "gr\u{fc}\u{df}e \u{2603}")));
}

#[test]
fn each_operation_names_its_own_program() {
    let commander = RealLxcCommander;
    let failed = || exited(false, b"", b"nope");
    assert_eq!(commander.create(failed()), Err(command_failed("lxc-create", "nope")));
    assert_eq!(commander.start(failed()), Err(command_failed("lxc-start", "nope")));
    assert_eq!(commander.stop(failed()), Err(command_failed("lxc-stop", "nope")));
    assert_eq!(commander.delete(failed()), Err(command_failed("lxc-destroy", "nope")));
    assert_eq!(commander.list(failed()), Err(command_failed("lxc-ls", "nope")));
    assert_eq!(commander.shutdown(failed()), Err(command_failed("lxc-stop", "nope")));
}

#[test]
fn each_operation_reports_a_failed_launch() {
    let commander = RealLxcCommander;
    let missing = || not_started("not found");
    assert_eq!(commander.create(missing()), Err(launch_failed("lxc-create", "not found")));
    assert_eq!(commander.start(missing()), Err(launch_failed("lxc-start", "not found")));
    assert_eq!(commander.stop(missing()), Err(launch_failed("lxc-stop", "not found")));
    assert_eq!(commander.delete(missing()), Err(launch_failed("lxc-destroy", "not found")));
    assert_eq!(commander.list(missing()), Err(launch_failed("lxc-ls", "not found")));
    assert_eq!(commander.shutdown(missing()), Err(launch_failed("lxc-stop", "not found")));
}

#[test]
fn operations_without_payload_succeed_whatever_was_written() {
    let commander = RealLxcCommander;
    let fine = || exited(true, b"anything", b"and a warning");
    assert_eq!(commander.create(fine()), Ok(()));
    assert_eq!(commander.start(fine()), Ok(()));
    assert_eq!(commander.stop(fine()), Ok(()));
    assert_eq!(commander.delete(fine()), Ok(()));
    assert_eq!(commander.shutdown(fine()), Ok(()));
}

#[test]
fn list_returns_standard_output_verbatim() {
    let commander = RealLxcCommander;
    let table = "NAME STATE   AUTOSTART\nweb  RUNNING 0\n";
    assert_eq!(commander.list(exited(true, table.as_bytes(), b"")), Ok(table.to_string()));
    assert_eq!(commander.list(exited(true, b"", b"")), Ok(String::new()));
}

#[test]
fn list_reads_output_that_is_not_utf8_with_replacement_characters() {
    let commander = RealLxcCommander;
    assert_eq!(
        commander.list(exited(true, b"we\xc3(b\n", b"")),
        Ok("we\u{fffd}(b\n".to_string())
    );
}

#[test]
fn every_error_has_its_message() {
    let name = || "web".to_string();
    assert_eq!(LxcError::AlreadyExists { name: name() }.message(), "Container web already exists");
    assert_eq!(LxcError::AlreadyRunning { name: name() }.message(), "Container web already running");
    assert_eq!(LxcError::AlreadyStopped { name: name() }.message(), "Container web already stopped");
    assert_eq!(LxcError::DoesNotExist { name: name() }.message(), "Container web does not exist");
    assert_eq!(
        LxcError::NotRunning { name: name() }.message(),
        "Container web does not exist or is not running"
    );
    assert_eq!(
        LxcError::IsRunning { name: name() }.message(),
        "Container web is running, stop first"
    );
    assert_eq!(launch_failed("lxc-ls", "denied").message(), "Failed to execute lxc-ls");
    assert_eq!(command_failed("lxc-ls", "boom").message(), "lxc-ls failed: boom");
}
