use rust_lxc::cli::Commands;
use rust_lxc::lxc::{
    lxc_create, lxc_delete, lxc_list, lxc_shutdown, lxc_start, lxc_stop, Invocation,
};

fn invocation(program: &str, args: &[&str]) -> Invocation {
    Invocation {
        program: program.to_string(),
        args: args.iter().map(|arg| arg.to_string()).collect(),
    }
}

#[test]
fn create_runs_lxc_create_with_name_and_template() {
    assert_eq!(
        lxc_create("web", "ubuntu"),
        invocation("lxc-create", &["-n", "web", "-t", "ubuntu"])
    );
    assert_eq!(
        lxc_create("db", "alpine"),
        invocation("lxc-create", &["-n", "db", "-t", "alpine"])
    );
}

#[test]
fn start_runs_lxc_start_with_name() {
    assert_eq!(lxc_start("web"), invocation("lxc-start", &["-n", "web"]));
}

#[test]
fn stop_runs_lxc_stop_with_name() {
    assert_eq!(lxc_stop("web"), invocation("lxc-stop", &["-n", "web"]));
}

#[test]
fn delete_runs_lxc_destroy_with_name() {
    assert_eq!(lxc_delete("web"), invocation("lxc-destroy", &["-n", "web"]));
}

#[test]
fn list_runs_lxc_ls_with_the_fancy_flag() {
    assert_eq!(lxc_list(), invocation("lxc-ls", &["-f"]));
}

#[test]
fn shutdown_runs_the_program_of_stop() {
    assert_eq!(lxc_shutdown("web"), invocation("lxc-stop", &["-n", "web"]));
    assert_eq!(lxc_shutdown("web"), lxc_stop("web"));
}

#[test]
fn names_are_passed_on_as_they_are() {
    assert_eq!(lxc_start(""), invocation("lxc-start", &["-n", ""]));
    assert_eq!(lxc_start("two words"), invocation("lxc-start", &["-n", "two words"]));
    assert_eq!(lxc_start("-t"), invocation("lxc-start", &["-n", "-t"]));
    assert_eq!(lxc_start("b\u{fc}ro"), invocation("lxc-start", &["-n", "b\u{fc}ro"]));
}

#[test]
fn each_subcommand_is_routed_to_its_program() {
    let name = || "web".to_string();
    assert_eq!(
        Commands::Create { name: name(), template: "ubuntu".to_string() }.invocation(),
        lxc_create("web", "ubuntu")
    );
    assert_eq!(Commands::Start { name: name() }.invocation(), lxc_start("web"));
    assert_eq!(Commands::Stop { name: name() }.invocation(), lxc_stop("web"));
    assert_eq!(Commands::Delete { name: name() }.invocation(), lxc_delete("web"));
    assert_eq!(Commands::Ls.invocation(), lxc_list());
    assert_eq!(Commands::Shutdown { name: name() }.invocation(), lxc_shutdown("web"));
}
