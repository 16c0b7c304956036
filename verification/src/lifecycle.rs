//! The service lifecycle engine.
//!
//! Every state-changing command (`run`, `kill`, `enable`, `disable`)
//! validates its precondition against a point-in-time status snapshot and
//! then describes the action to take as a plain value: a launch plan, a
//! list of process identifiers to terminate, or an auto-start store action.
//! The caller performs the described action against the operating system;
//! the check-then-act sequence is inherently racy against live OS state and
//! that gap is accepted, not engineered around.

use vstd::prelude::*;

use crate::errors::SvcError;
use crate::parse::spec_pids;
use crate::service::{Service, ServiceStatus, ServiceType};
use crate::text::spec_exit_code_text;

verus! {

/// A path separator. Configured paths come in both styles, so both
/// separators are honoured.
pub open spec fn is_sep(c: char) -> bool {
    c == '/' || c == '\\'
}

/// The path with its trailing separators removed.
pub open spec fn strip_trailing_seps(p: Seq<char>) -> Seq<char>
    decreases p.len(),
{
    if p.len() > 0 && is_sep(p.last()) {
        strip_trailing_seps(p.drop_last())
    } else {
        p
    }
}

/// The index of the last separator in a path, or -1 when it has none.
pub open spec fn last_sep(p: Seq<char>) -> int
    decreases p.len(),
{
    if p.len() == 0 {
        -1
    } else if is_sep(p.last()) {
        p.len() - 1
    } else {
        last_sep(p.drop_last())
    }
}

/// The parent directory of a file path, read as the platform's path type
/// reads it: trailing separators are ignored, the last component is
/// dropped, and trailing separators of what remains are dropped too —
/// except that a path directly under the root keeps the leading separator
/// run as its parent. A bare file name, the empty path and the root itself
/// have no parent (the empty sequence).
pub open spec fn spec_parent_dir(p: Seq<char>) -> Seq<char> {
    let s = strip_trailing_seps(p);
    let k = last_sep(s);
    if k < 0 {
        Seq::empty()
    } else {
        let head = strip_trailing_seps(s.take(k));
        if head.len() == 0 {
            s.take(k + 1)
        } else {
            head
        }
    }
}

/// The working directory a service is launched in: the explicit override
/// when one is configured, else the parent directory of the service's path,
/// else the current directory (".") as a last resort.
pub open spec fn spec_resolved_dir(work_at: Seq<char>, path: Seq<char>) -> Seq<char> {
    if work_at.len() > 0 {
        work_at
    } else if spec_parent_dir(path).len() > 0 {
        spec_parent_dir(path)
    } else {
        "."@
    }
}

proof fn lemma_last_sep(p: Seq<char>)
    ensures
        -1 <= last_sep(p) < p.len(),
        last_sep(p) == -1 ==> forall|j: int| 0 <= j < p.len() ==> !is_sep(p[j]),
        last_sep(p) >= 0 ==> 0 <= last_sep(p) < p.len() && is_sep(p[last_sep(p)]) && forall|
            j: int,
        | last_sep(p) < j < p.len() ==> !is_sep(p[j]),
    decreases p.len(),
{
    if p.len() == 0 {
    } else if is_sep(p.last()) {
    } else {
        lemma_last_sep(p.drop_last());
        assert(forall|j: int| 0 <= j < p.len() - 1 ==> p[j] == p.drop_last()[j]);
    }
}

fn is_sep_char(c: char) -> (r: bool)
    ensures
        r == is_sep(c),
{
    c == '/' || c == '\\'
}

/// The length of `path`'s first `from` characters once their trailing
/// separators are stripped.
fn strip_seps_end(path: &str, from: usize) -> (e: usize)
    requires
        from <= path@.len(),
    ensures
        e <= from,
        path@.take(e as int) == strip_trailing_seps(path@.take(from as int)),
{
    let mut e: usize = from;
    while e > 0 && is_sep_char(path.get_char(e - 1))
        invariant
            e <= from <= path@.len(),
            strip_trailing_seps(path@.take(from as int)) == strip_trailing_seps(
                path@.take(e as int),
            ),
        decreases e,
    {
        proof {
            let t = path@.take(e as int);
            assert(t.last() == path@[e as int - 1]);
            assert(t.drop_last() =~= path@.take(e as int - 1));
        }
        e = e - 1;
    }
    proof {
        let t = path@.take(e as int);
        if t.len() > 0 {
            assert(t.last() == path@[e as int - 1]);
        }
        assert(strip_trailing_seps(t) == t);
    }
    e
}

/// Resolves the working directory a service is launched in, as
/// `spec_resolved_dir` describes: the override when non-empty, else the
/// parent directory of `path`, else ".".
pub fn resolve_work_dir(work_at: &str, path: &str) -> (r: String)
    ensures
        r@ == spec_resolved_dir(work_at@, path@),
{
    if !work_at.is_empty() {
        return work_at.to_owned();
    }
    let n = path.unicode_len();
    proof {
        assert(path@.take(n as int) =~= path@);
    }
    let e = strip_seps_end(path, n);
    let ghost s = path@.take(e as int);
    let mut k: usize = e;
    while k > 0 && !is_sep_char(path.get_char(k - 1))
        invariant
            e <= n == path@.len(),
            k <= e,
            forall|j: int| k <= j < e ==> !is_sep(path@[j]),
        decreases k,
    {
        k = k - 1;
    }
    proof {
        lemma_last_sep(s);
        assert(forall|j: int| 0 <= j < e ==> s[j] == path@[j]);
    }
    if k == 0 {
        proof {
            assert(last_sep(s) == -1);
        }
        ".".to_owned()
    } else {
        proof {
            assert(is_sep(s[k - 1]));
            assert(last_sep(s) == k - 1);
        }
        let h = strip_seps_end(path, k - 1);
        proof {
            assert(s.take(k - 1) =~= path@.take(k - 1));
        }
        if h == 0 {
            proof {
                assert(s.take(k as int) =~= path@.take(k as int));
            }
            let r = path.substring_char(0, k);
            proof {
                assert(r@ =~= path@.take(k as int));
            }
            r.to_owned()
        } else {
            let r = path.substring_char(0, h);
            proof {
                assert(r@ =~= path@.take(h as int));
            }
            r.to_owned()
        }
    }
}

/// What a `run` command must do once its precondition holds: spawn
/// `program` with `args`, in `work_dir` (no override when empty), and wait
/// for it iff `wait` is set. Executables run detached in the background;
/// utilities are waited on synchronously so their outcome can be observed.
#[derive(Debug, Clone)]
pub struct LaunchPlan {
    pub program: String,
    pub args: Vec<String>,
    pub work_dir: String,
    pub wait: bool,
}

/// How a correct launch plan relates to its service and working directory:
/// an `Executable` is its own program with no arguments and is not waited
/// on; a `Util` runs its interpreter with the service path as the sole
/// argument and is waited on.
pub open spec fn plan_matches(service: Service, plan: LaunchPlan, work_dir: Seq<char>) -> bool {
    &&& plan.program@ == match service.service_type {
        ServiceType::Executable => service.path@,
        ServiceType::Util => service.interpreter@,
    }
    &&& plan.args@.map_values(|a: String| a@) == match service.service_type {
        ServiceType::Executable => Seq::<Seq<char>>::empty(),
        ServiceType::Util => seq![service.path@],
    }
    &&& plan.work_dir@ == work_dir
    &&& plan.wait == (service.service_type is Util)
}

/// Builds the launch plan for a service in a given working directory.
pub fn launch_plan_for(service: &Service, work_dir: String) -> (plan: LaunchPlan)
    ensures
        plan_matches(*service, plan, work_dir@),
{
    match service.service_type {
        ServiceType::Executable => {
            let plan = LaunchPlan {
                program: service.path.clone(),
                args: Vec::new(),
                work_dir,
                wait: false,
            };
            proof {
                assert(plan.args@.map_values(|a: String| a@) =~= Seq::<Seq<char>>::empty());
            }
            plan
        },
        ServiceType::Util => {
            let mut args: Vec<String> = Vec::new();
            args.push(service.path.clone());
            let plan = LaunchPlan {
                program: service.interpreter.clone(),
                args,
                work_dir,
                wait: true,
            };
            proof {
                assert(plan.args@.map_values(|a: String| a@) =~= seq![service.path@]);
            }
            plan
        },
    }
}

/// Decides a `run` command against a status snapshot.
///
/// A launch is attempted exactly when the live-process set is empty: then
/// the result is the launch plan for the service in its resolved working
/// directory. When any live process matches, the command fails with
/// `ServiceIsRunning` and nothing is launched.
pub fn run_decision(service: &Service, status: &ServiceStatus) -> (r: Result<LaunchPlan, SvcError>)
    ensures
        status.pids@.len() > 0 ==> r == Err::<LaunchPlan, SvcError>(SvcError::ServiceIsRunning),
        status.pids@.len() == 0 ==> (r matches Ok(plan) && plan_matches(
            *service,
            plan,
            spec_resolved_dir(service.work_at@, service.path@),
        )),
{
    if status.pids.len() > 0 {
        return Err(SvcError::ServiceIsRunning);
    }
    let work_dir = resolve_work_dir(service.work_at.as_str(), service.path.as_str());
    Ok(launch_plan_for(service, work_dir))
}

/// Decides the `run ... at <dir>` form, which launches in the given
/// directory (empty meaning "no override"). Deliberately, this form does
/// not consult the status oracle: the explicit-directory invocation is an
/// unconditional launch and bypasses the already-running check.
pub fn run_at_decision(service: &Service, work_dir: &str) -> (plan: LaunchPlan)
    ensures
        plan_matches(*service, plan, work_dir@),
{
    launch_plan_for(service, work_dir.to_owned())
}

/// Decides a `kill` command against a status snapshot.
///
/// When the live-process set is empty the command fails with
/// `ServiceIsNotRunning` and no termination is invoked; otherwise every
/// matched identifier, in order, is to be terminated (best effort, possibly
/// concurrently).
pub fn kill_decision(status: &ServiceStatus) -> (r: Result<Vec<u64>, SvcError>)
    ensures
        status.pids@.len() == 0 ==> r == Err::<Vec<u64>, SvcError>(SvcError::ServiceIsNotRunning),
        status.pids@.len() > 0 ==> (r matches Ok(pids) && pids@ == status.pids@),
{
    if status.pids.len() == 0 {
        return Err(SvcError::ServiceIsNotRunning);
    }
    let mut pids: Vec<u64> = Vec::new();
    let mut i: usize = 0;
    while i < status.pids.len()
        invariant
            i <= status.pids@.len(),
            pids@ == status.pids@.take(i as int),
        decreases status.pids@.len() - i,
    {
        pids.push(status.pids[i]);
        proof {
            assert(pids@ =~= status.pids@.take(i + 1 as int));
        }
        i = i + 1;
    }
    proof {
        assert(status.pids@.take(status.pids@.len() as int) =~= status.pids@);
    }
    Ok(pids)
}

/// An action against the auto-start store: register `name` to launch
/// `path` at login, or remove the entry registered under `name`.
#[derive(Debug, Clone)]
pub enum RegAction {
    Add { name: String, path: String },
    Remove { name: String },
}

/// Decides an `enable` command against a status snapshot.
///
/// When an auto-start entry is already registered the command fails with
/// `ServiceIsEnabled`; otherwise the action is to add an entry keyed by the
/// service's name pointing at its path.
pub fn enable_decision(service: &Service, status: &ServiceStatus) -> (r: Result<
    RegAction,
    SvcError,
>)
    ensures
        status.is_start_up ==> r == Err::<RegAction, SvcError>(SvcError::ServiceIsEnabled),
        !status.is_start_up ==> (r matches Ok(RegAction::Add { name, path }) && name@
            == service.name@ && path@ == service.path@),
{
    if status.is_start_up {
        return Err(SvcError::ServiceIsEnabled);
    }
    Ok(RegAction::Add { name: service.name.clone(), path: service.path.clone() })
}

/// Decides a `disable` command against a status snapshot.
///
/// When no auto-start entry is registered the command fails with
/// `ServiceIsDisabled`; otherwise the action is to remove the entry keyed
/// by the service's name.
pub fn disable_decision(service: &Service, status: &ServiceStatus) -> (r: Result<
    RegAction,
    SvcError,
>)
    ensures
        !status.is_start_up ==> r == Err::<RegAction, SvcError>(SvcError::ServiceIsDisabled),
        status.is_start_up ==> (r matches Ok(RegAction::Remove { name }) && name@
            == service.name@),
{
    if !status.is_start_up {
        return Err(SvcError::ServiceIsDisabled);
    }
    Ok(RegAction::Remove { name: service.name.clone() })
}

/// The diagnostic message a failed utility run is reported with.
pub open spec fn spec_util_failure_message(path: Seq<char>, code: Option<i32>) -> Seq<char> {
    "Utility "@ + path + " failed to run with exit status "@ + spec_exit_code_text(code) + "."@
}

/// Judges the exit of a synchronously-run utility.
///
/// A zero exit code is success; any other outcome (a non-zero code, or none
/// because the process was ended by a signal) is an `IoError` whose message
/// names the launched path and the exit status.
pub fn util_run_outcome(path: &str, exit_code: Option<i32>) -> (r: Result<(), SvcError>)
    ensures
        exit_code == Some(0i32) ==> r == Ok::<(), SvcError>(()),
        exit_code != Some(0i32) ==> (r matches Err(SvcError::IoError(m)) && m@
            == spec_util_failure_message(path@, exit_code)),
{
    let ok = match exit_code {
        Some(c) => c == 0,
        None => false,
    };
    if ok {
        Ok(())
    } else {
        let mut m = "Utility ".to_owned();
        m.append(path);
        m.append(" failed to run with exit status ");
        let code_text = crate::text::exit_code_text(exit_code);
        m.append(code_text.as_str());
        m.append(".");
        proof {
            assert(m@ =~= spec_util_failure_message(path@, exit_code));
        }
        Err(SvcError::IoError(m))
    }
}

/// Reads the auto-start store's answer: its query exits with code zero
/// exactly when an entry is registered under the queried name. Every other
/// outcome — a non-zero exit, or no code at all — counts as "not
/// registered"; a failure of the querying mechanism is deliberately folded
/// into "disabled" rather than escalated.
pub fn startup_from_exit_code(exit_code: Option<i32>) -> (r: bool)
    ensures
        r == (exit_code == Some(0i32)),
{
    match exit_code {
        Some(c) => c == 0,
        None => false,
    }
}

/// Composes one status snapshot from the raw answers of the two underlying
/// queries: the process-enumeration output filtered by the service's path,
/// and the exit code of the auto-start store query for the service's name.
pub fn status_from_raw(enum_output: &str, reg_exit_code: Option<i32>) -> (st: ServiceStatus)
    ensures
        st.pids@ == spec_pids(enum_output@),
        st.is_start_up == (reg_exit_code == Some(0i32)),
{
    ServiceStatus {
        pids: crate::parse::parse_pids(enum_output),
        is_start_up: startup_from_exit_code(reg_exit_code),
    }
}

} // verus!
