//! Services and their point-in-time status snapshots.

use vstd::prelude::*;

verus! {

/// How a service is launched.
///
/// An `Executable` is spawned directly and left running in the background.
/// A `Util` is a one-shot script: an interpreter is spawned with the
/// service's path as its sole argument and waited on synchronously.
#[derive(Debug, Clone, Copy, PartialEq, Eq, Structural)]
pub enum ServiceType {
    Executable,
    Util,
}

impl ServiceType {
    /// The human-readable name of the type, as status output shows it.
    pub open spec fn spec_kind_label(self) -> Seq<char> {
        match self {
            ServiceType::Executable => "Executable"@,
            ServiceType::Util => "Utility"@,
        }
    }

    /// Renders the type for status output.
    pub fn kind_label(&self) -> (r: String)
        ensures
            r@ == self.spec_kind_label(),
    {
        match self {
            ServiceType::Executable => "Executable".to_owned(),
            ServiceType::Util => "Utility".to_owned(),
        }
    }
}

/// One configured service. Loaded once per invocation, immutable thereafter.
///
/// `name` keys the auto-start store and command-line lookup; `path` both
/// launches the process and filters the process table (whatever string
/// launches the service is the string its live processes are matched by).
/// `interpreter` is only meaningful for `Util` services; `work_at` is an
/// optional working-directory override, empty meaning "derive one from
/// `path`".
#[derive(Debug, Clone)]
pub struct Service {
    pub name: String,
    pub path: String,
    pub service_type: ServiceType,
    pub interpreter: String,
    pub work_at: String,
}

/// The interpreter used for `Util` services that configure none.
pub fn default_interpreter() -> (r: String)
    ensures
        r@ == "python"@,
{
    "python".to_owned()
}

/// The working-directory override used when the configuration gives none:
/// the empty string, meaning "derive the directory from the path".
pub fn default_work_at() -> (r: String)
    ensures
        r@ == ""@,
{
    "".to_owned()
}

/// A point-in-time view of one service: the identifiers of its live
/// processes and whether an auto-start entry is currently registered under
/// its name. Recomputed on every query, never cached; it is only guaranteed
/// true at the instant the two underlying queries completed.
///
/// A service is *running* iff `pids` is non-empty and *enabled* iff
/// `is_start_up` is true; the two facts are orthogonal.
#[derive(Debug, Clone)]
pub struct ServiceStatus {
    pub pids: Vec<u64>,
    pub is_start_up: bool,
}

/// Finds the service a command names. When several entries share a name the
/// last one wins, matching a map built by inserting entries in file order.
pub fn find_service<'a>(services: &'a Vec<Service>, name: &str) -> (r: Option<&'a Service>)
    ensures
        match r {
            Some(s) => exists|i: int|
                0 <= i < services@.len() && services@[i].name@ == name@ && *s == services@[i]
                    && forall|j: int| i < j < services@.len() ==> services@[j].name@ != name@,
            None => forall|i: int| 0 <= i < services@.len() ==> services@[i].name@ != name@,
        },
{
    let mut k: usize = services.len();
    while k > 0
        invariant
            k <= services@.len(),
            forall|j: int| k <= j < services@.len() ==> services@[j].name@ != name@,
        decreases k,
    {
        k = k - 1;
        if crate::text::str_eq(services[k].name.as_str(), name) {
            return Some(&services[k]);
        }
    }
    None
}

} // verus!
