//! Tests for the lifecycle engine's decisions.

use svc::cli::{parse_command, CliCommand};
use svc::errors::SvcError;
use svc::lifecycle::{
    disable_decision, enable_decision, kill_decision, resolve_work_dir, run_at_decision,
    run_decision, startup_from_exit_code, util_run_outcome, RegAction,
};
use svc::service::{find_service, Service, ServiceStatus, ServiceType};

fn executable(name: &str, path: &str, work_at: &str) -> Service {
    Service {
        name: name.to_string(),
        path: path.to_string(),
        service_type: ServiceType::Executable,
        interpreter: "python".to_string(),
        work_at: work_at.to_string(),
    }
}

fn util(name: &str, path: &str, interpreter: &str) -> Service {
    Service {
        name: name.to_string(),
        path: path.to_string(),
        service_type: ServiceType::Util,
        interpreter: interpreter.to_string(),
        work_at: String::new(),
    }
}

fn status(pids: Vec<u64>, is_start_up: bool) -> ServiceStatus {
    ServiceStatus { pids, is_start_up }
}

#[test]
fn run_launches_when_no_process_is_live() {
    let svc = executable("web", "/opt/web/webd", "");
    let plan = run_decision(&svc, &status(vec![], false)).unwrap();
    assert_eq!(plan.program, "/opt/web/webd");
    assert!(plan.args.is_empty());
    assert_eq!(plan.work_dir, "/opt/web");
    assert!(!plan.wait);
}

#[test]
fn run_fails_when_a_process_is_live() {
    let svc = executable("web", "/opt/web/webd", "");
    let r = run_decision(&svc, &status(vec![100, 200], false));
    assert!(matches!(r, Err(SvcError::ServiceIsRunning)));
}

#[test]
fn run_honours_the_configured_override() {
    let svc = executable("web", "/opt/web/webd", "/var/lib/web");
    let plan = run_decision(&svc, &status(vec![], false)).unwrap();
    assert_eq!(plan.work_dir, "/var/lib/web");
}

#[test]
fn run_at_launches_unconditionally_in_the_given_directory() {
    let svc = executable("web", "/opt/web/webd", "/var/lib/web");
    let plan = run_at_decision(&svc, "/tmp/scratch");
    assert_eq!(plan.program, "/opt/web/webd");
    assert_eq!(plan.work_dir, "/tmp/scratch");
}

#[test]
fn working_directory_resolution() {
    assert_eq!(resolve_work_dir("", "/a/b/c.exe"), "/a/b");
    assert_eq!(resolve_work_dir("/x/y", "/a/b/c.exe"), "/x/y");
    assert_eq!(resolve_work_dir("", "/c.exe"), "/");
    assert_eq!(resolve_work_dir("", "c.exe"), ".");
    assert_eq!(resolve_work_dir("", ""), ".");
}

#[test]
fn the_root_path_has_no_parent() {
    // The last-resort fallback: no override and no usable parent.
    assert_eq!(resolve_work_dir("", "/"), ".");
    assert_eq!(resolve_work_dir("", "///"), ".");
    assert_eq!(resolve_work_dir("", "\\"), ".");
}

#[test]
fn trailing_separators_are_ignored() {
    assert_eq!(resolve_work_dir("", "/a/b/"), "/a");
    assert_eq!(resolve_work_dir("", "/a//b"), "/a");
    assert_eq!(resolve_work_dir("", "a/"), ".");
}

#[test]
fn backslash_paths_resolve_like_the_platform() {
    assert_eq!(resolve_work_dir("", "C:\\srv\\tool.py"), "C:\\srv");
    assert_eq!(resolve_work_dir("", "C:\\tool.py"), "C:");
    assert_eq!(resolve_work_dir("", "\\tool.py"), "\\");
}

#[test]
fn kill_fails_when_no_process_is_live() {
    let r = kill_decision(&status(vec![], true));
    assert!(matches!(r, Err(SvcError::ServiceIsNotRunning)));
}

#[test]
fn kill_targets_every_live_process() {
    let pids = kill_decision(&status(vec![31, 41, 59], false)).unwrap();
    assert_eq!(pids, vec![31u64, 41u64, 59u64]);
}

#[test]
fn enable_registers_name_and_path() {
    let svc = executable("web", "/opt/web/webd", "");
    let action = enable_decision(&svc, &status(vec![], false)).unwrap();
    match action {
        RegAction::Add { name, path } => {
            assert_eq!(name, "web");
            assert_eq!(path, "/opt/web/webd");
        }
        RegAction::Remove { .. } => panic!("enable must add an entry"),
    }
}

#[test]
fn enable_twice_fails_the_second_time() {
    let svc = executable("web", "/opt/web/webd", "");
    assert!(enable_decision(&svc, &status(vec![], false)).is_ok());
    let r = enable_decision(&svc, &status(vec![], true));
    assert!(matches!(r, Err(SvcError::ServiceIsEnabled)));
}

#[test]
fn disable_removes_the_entry() {
    let svc = executable("web", "/opt/web/webd", "");
    let action = disable_decision(&svc, &status(vec![], true)).unwrap();
    match action {
        RegAction::Remove { name } => assert_eq!(name, "web"),
        RegAction::Add { .. } => panic!("disable must remove an entry"),
    }
}

#[test]
fn disable_twice_fails_the_second_time() {
    let svc = executable("web", "/opt/web/webd", "");
    assert!(disable_decision(&svc, &status(vec![], true)).is_ok());
    let r = disable_decision(&svc, &status(vec![], false));
    assert!(matches!(r, Err(SvcError::ServiceIsDisabled)));
}

#[test]
fn utility_tool_scenario() {
    let svc = util("tool", "/srv/tool.py", "python");

    // Not running: `run` plans `python /srv/tool.py` in `/srv` and waits.
    let plan = run_decision(&svc, &status(vec![], false)).unwrap();
    assert_eq!(plan.program, "python");
    assert_eq!(plan.args, vec!["/srv/tool.py".to_string()]);
    assert_eq!(plan.work_dir, "/srv");
    assert!(plan.wait);

    // A non-zero exit surfaces as IoError naming the path and the code.
    let r = util_run_outcome("/srv/tool.py", Some(2));
    match r {
        Err(SvcError::IoError(m)) => {
            assert_eq!(m, "Utility /srv/tool.py failed to run with exit status 2.");
        }
        other => panic!("expected IoError, got {:?}", other),
    }
    assert!(util_run_outcome("/srv/tool.py", Some(0)).is_ok());

    // Enabling succeeds while disabled; a snapshot taken afterwards reports
    // the service enabled.
    let action = enable_decision(&svc, &status(vec![], false)).unwrap();
    assert!(matches!(action, RegAction::Add { .. }));
    let after = status(vec![], true);
    assert!(after.is_start_up);
}

#[test]
fn utility_killed_by_signal_is_an_error() {
    let r = util_run_outcome("/srv/tool.py", None);
    match r {
        Err(SvcError::IoError(m)) => {
            assert_eq!(
                m,
                "Utility /srv/tool.py failed to run with exit status terminated by signal."
            );
        }
        other => panic!("expected IoError, got {:?}", other),
    }
}

#[test]
fn startup_flag_follows_the_query_exit_code() {
    assert!(startup_from_exit_code(Some(0)));
    assert!(!startup_from_exit_code(Some(1)));
    assert!(!startup_from_exit_code(Some(-9)));
    assert!(!startup_from_exit_code(None));
}

#[test]
fn command_words() {
    assert_eq!(parse_command("run"), Some(CliCommand::Run));
    assert_eq!(parse_command("enable"), Some(CliCommand::Enable));
    assert_eq!(parse_command("disable"), Some(CliCommand::Disable));
    assert_eq!(parse_command("status"), Some(CliCommand::Status));
    assert_eq!(parse_command("kill"), Some(CliCommand::Kill));
    assert_eq!(parse_command("restart"), None);
    assert_eq!(parse_command("Run"), None);
    assert_eq!(parse_command(""), None);
}

#[test]
fn lookup_finds_a_service_by_name() {
    let services = vec![
        executable("a", "/bin/a", ""),
        util("b", "/srv/b.py", "python"),
    ];
    let found = find_service(&services, "b").expect("b is configured");
    assert_eq!(found.path, "/srv/b.py");
    assert!(find_service(&services, "c").is_none());
}

#[test]
fn lookup_prefers_the_last_duplicate() {
    let services = vec![
        executable("a", "/bin/first", ""),
        executable("a", "/bin/second", ""),
    ];
    let found = find_service(&services, "a").expect("a is configured");
    assert_eq!(found.path, "/bin/second");
}
