//! A model of the auto-start store, and the laws the enable/disable
//! decisions satisfy against it.
//!
//! The real store lives outside this crate (an OS-level table of name →
//! launched-path entries); here it is modelled as a map from names to
//! paths. A service is *enabled* exactly when the store holds an entry
//! under its name, and the two `RegAction`s act on the model as their
//! documentation says: `Add` inserts an entry, `Remove` deletes it.

use vstd::prelude::*;

use crate::errors::SvcError;
use crate::lifecycle::RegAction;
use crate::service::Service;
use crate::service::ServiceStatus;

verus! {

/// Whether the store holds an auto-start entry under `name`.
pub open spec fn store_enabled(store: Map<Seq<char>, Seq<char>>, name: Seq<char>) -> bool {
    store.contains_key(name)
}

/// The store after one action: `Add` registers `path` under `name`
/// (overwriting any previous entry), `Remove` deletes the entry under
/// `name` (a no-op when there is none).
pub open spec fn apply_reg_action(
    store: Map<Seq<char>, Seq<char>>,
    action: RegAction,
) -> Map<Seq<char>, Seq<char>> {
    match action {
        RegAction::Add { name, path } => store.insert(name@, path@),
        RegAction::Remove { name } => store.remove(name@),
    }
}

/// Law: a status snapshot drawn right after a successful `enable` reports
/// the service enabled.
///
/// `a1` is any result meeting `enable_decision`'s contract for a snapshot
/// on which the service was not yet enabled, and `st2` any snapshot whose
/// auto-start flag reflects the store after `a1`'s action.
pub proof fn lemma_enable_round_trip(
    service: Service,
    store: Map<Seq<char>, Seq<char>>,
    a1: Result<RegAction, SvcError>,
    st2: ServiceStatus,
)
    requires
        (a1 matches Ok(RegAction::Add { name, path }) && name@ == service.name@ && path@
            == service.path@),
        st2.is_start_up == store_enabled(apply_reg_action(store, a1->Ok_0), service.name@),
    ensures
        st2.is_start_up,
{
}

/// Law: a status snapshot drawn right after a successful `disable` reports
/// the service disabled.
pub proof fn lemma_disable_round_trip(
    service: Service,
    store: Map<Seq<char>, Seq<char>>,
    a1: Result<RegAction, SvcError>,
    st2: ServiceStatus,
)
    requires
        (a1 matches Ok(RegAction::Remove { name }) && name@ == service.name@),
        st2.is_start_up == store_enabled(apply_reg_action(store, a1->Ok_0), service.name@),
    ensures
        !st2.is_start_up,
{
}

/// Law: `enable` twice, without an intervening `disable`, fails the second
/// time with `ServiceIsEnabled`.
///
/// `a1` is any result meeting `enable_decision`'s contract for a
/// not-yet-enabled snapshot; `st2` is a snapshot drawn from the store after
/// `a1`'s action; `a2` is any result meeting `enable_decision`'s contract
/// for `st2`.
pub proof fn lemma_enable_twice(
    service: Service,
    store: Map<Seq<char>, Seq<char>>,
    a1: Result<RegAction, SvcError>,
    st2: ServiceStatus,
    a2: Result<RegAction, SvcError>,
)
    requires
        (a1 matches Ok(RegAction::Add { name, path }) && name@ == service.name@ && path@
            == service.path@),
        st2.is_start_up == store_enabled(apply_reg_action(store, a1->Ok_0), service.name@),
        st2.is_start_up ==> a2 == Err::<RegAction, SvcError>(SvcError::ServiceIsEnabled),
    ensures
        a2 == Err::<RegAction, SvcError>(SvcError::ServiceIsEnabled),
{
}

/// Law: `disable` twice, without an intervening `enable`, fails the second
/// time with `ServiceIsDisabled`.
pub proof fn lemma_disable_twice(
    service: Service,
    store: Map<Seq<char>, Seq<char>>,
    a1: Result<RegAction, SvcError>,
    st2: ServiceStatus,
    a2: Result<RegAction, SvcError>,
)
    requires
        (a1 matches Ok(RegAction::Remove { name }) && name@ == service.name@),
        st2.is_start_up == store_enabled(apply_reg_action(store, a1->Ok_0), service.name@),
        !st2.is_start_up ==> a2 == Err::<RegAction, SvcError>(SvcError::ServiceIsDisabled),
    ensures
        a2 == Err::<RegAction, SvcError>(SvcError::ServiceIsDisabled),
{
}

} // verus!
