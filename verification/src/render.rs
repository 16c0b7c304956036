//! Rendering statuses and outcomes as human-readable lines.
//!
//! Pure presentation: every function builds text that faithfully reflects
//! the snapshot or event it is handed, with no further invariants.

use vstd::prelude::*;

use crate::service::{Service, ServiceStatus, ServiceType};
use crate::text::{dec_digits, pid_list_string, spec_pid_list, u64_to_string};

verus! {

/// The lines the `status` command prints for one service: its name, type
/// and path always; then, for an executable, its live process identifiers
/// (or "not running") and its auto-start state; for a utility, its
/// interpreter.
pub open spec fn spec_status_lines(service: Service, status: ServiceStatus) -> Seq<Seq<char>> {
    let head = seq![
        "Name: "@ + service.name@,
        "Type: "@ + service.service_type.spec_kind_label(),
        "Path: "@ + service.path@,
    ];
    match service.service_type {
        ServiceType::Executable => head + seq![
            "PID: "@ + (if status.pids@.len() == 0 {
                "not running"@
            } else {
                spec_pid_list(status.pids@)
            }),
            "Start-up: "@ + (if status.is_start_up {
                "enabled"@
            } else {
                "disabled"@
            }),
        ],
        ServiceType::Util => head + seq!["Interpreter: "@ + service.interpreter@],
    }
}

/// Renders one service's status snapshot, line by line.
pub fn render_status(service: &Service, status: &ServiceStatus) -> (lines: Vec<String>)
    ensures
        lines@.map_values(|l: String| l@) == spec_status_lines(*service, *status),
{
    let mut lines: Vec<String> = Vec::new();

    let mut name_line = "Name: ".to_owned();
    name_line.append(service.name.as_str());
    lines.push(name_line);

    let mut kind_line = "Type: ".to_owned();
    let kind = service.service_type.kind_label();
    kind_line.append(kind.as_str());
    lines.push(kind_line);

    let mut path_line = "Path: ".to_owned();
    path_line.append(service.path.as_str());
    lines.push(path_line);

    match service.service_type {
        ServiceType::Executable => {
            let mut pid_line = "PID: ".to_owned();
            if status.pids.len() == 0 {
                pid_line.append("not running");
            } else {
                let list = pid_list_string(&status.pids);
                pid_line.append(list.as_str());
            }
            lines.push(pid_line);

            let mut startup_line = "Start-up: ".to_owned();
            if status.is_start_up {
                startup_line.append("enabled");
            } else {
                startup_line.append("disabled");
            }
            lines.push(startup_line);
        },
        ServiceType::Util => {
            let mut interp_line = "Interpreter: ".to_owned();
            interp_line.append(service.interpreter.as_str());
            lines.push(interp_line);
        },
    }
    proof {
        assert(lines@.map_values(|l: String| l@) =~= spec_status_lines(*service, *status));
    }
    lines
}

/// The line reporting a background launch.
pub open spec fn spec_started_message(path: Seq<char>) -> Seq<char> {
    "Executable "@ + path + " started in the background."@
}

/// Reports that an executable was launched in the background.
pub fn started_message(path: &str) -> (r: String)
    ensures
        r@ == spec_started_message(path@),
{
    let mut m = "Executable ".to_owned();
    m.append(path);
    m.append(" started in the background.");
    proof {
        assert(m@ =~= spec_started_message(path@));
    }
    m
}

/// The line reporting one terminated process.
pub open spec fn spec_killed_message(name: Seq<char>, pid: u64) -> Seq<char> {
    "Service "@ + name + " with PID "@ + dec_digits(pid as nat) + " killed."@
}

/// Reports that one of a service's processes was terminated.
pub fn killed_message(name: &str, pid: u64) -> (r: String)
    ensures
        r@ == spec_killed_message(name@, pid),
{
    let mut m = "Service ".to_owned();
    m.append(name);
    m.append(" with PID ");
    let digits = u64_to_string(pid);
    m.append(digits.as_str());
    m.append(" killed.");
    proof {
        assert(m@ =~= spec_killed_message(name@, pid));
    }
    m
}

/// The line reporting a service registered for auto-start.
pub open spec fn spec_enabled_message(name: Seq<char>) -> Seq<char> {
    "Service "@ + name + " enabled."@
}

/// Reports that a service was registered for auto-start.
pub fn enabled_message(name: &str) -> (r: String)
    ensures
        r@ == spec_enabled_message(name@),
{
    let mut m = "Service ".to_owned();
    m.append(name);
    m.append(" enabled.");
    proof {
        assert(m@ =~= spec_enabled_message(name@));
    }
    m
}

/// The line reporting a service unregistered from auto-start.
pub open spec fn spec_disabled_message(name: Seq<char>) -> Seq<char> {
    "Service "@ + name + " disabled."@
}

/// Reports that a service was unregistered from auto-start.
pub fn disabled_message(name: &str) -> (r: String)
    ensures
        r@ == spec_disabled_message(name@),
{
    let mut m = "Service ".to_owned();
    m.append(name);
    m.append(" disabled.");
    proof {
        assert(m@ =~= spec_disabled_message(name@));
    }
    m
}

} // verus!
