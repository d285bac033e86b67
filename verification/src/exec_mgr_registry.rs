//! The launcher's registry of execution managers, by manager id and by the
//! kind of execution context that each serves.

use std::collections::HashMap;

use vstd::prelude::*;
use vstd::std_specs::hash::spec_values_iter;
use vstd::std_specs::iter::IteratorSpec;

use crate::task::ExecutionContextKind;

verus! {

/// A registered execution manager: its id, the kind it serves, and the
/// manager.
pub struct RegisteredManager<M> {
    pub manager_id: u128,
    pub kind: ExecutionContextKind,
    pub manager: M,
}

/// Execution managers, each registered under its id.
pub struct ExecutionManagerRegistry<M> {
    managers: HashMap<u128, RegisteredManager<M>>,
}

impl<M> View for ExecutionManagerRegistry<M> {
    type V = Map<u128, RegisteredManager<M>>;

    closed spec fn view(&self) -> Map<u128, RegisteredManager<M>> {
        self.managers@
    }
}

/// Whether some manager of `entries` serves `kind`.
pub open spec fn serves_kind<M>(entries: Map<u128, RegisteredManager<M>>, kind: ExecutionContextKind) -> bool {
    exists|id: u128| #[trigger] entries.contains_key(id) && entries[id].kind == kind
}

impl<M> ExecutionManagerRegistry<M> {
    /// Each manager is registered under its own id.
    pub closed spec fn wf(&self) -> bool {
        forall|id: u128| #[trigger] self.managers@.contains_key(id) ==> self.managers@[id].manager_id == id
    }

    /// An empty registry.
    pub fn new() -> (r: ExecutionManagerRegistry<M>)
        ensures
            r.wf(),
            r@ == Map::<u128, RegisteredManager<M>>::empty(),
    {
        ExecutionManagerRegistry { managers: HashMap::new() }
    }

    /// Registers `manager` under `manager_id` as serving `kind`, replacing a
    /// manager registered under the same id.
    pub fn register_manager(&mut self, manager_id: u128, kind: ExecutionContextKind, manager: M)
        requires
            old(self).wf(),
        ensures
            final(self).wf(),
            final(self)@ == old(self)@.insert(
                manager_id,
                RegisteredManager { manager_id, kind, manager },
            ),
    {
        self.managers.insert(manager_id, RegisteredManager { manager_id, kind, manager });
    }

    /// The manager registered under `manager_id`, if any.
    pub fn get_manager_by_id(&self, manager_id: u128) -> (r: Option<&M>)
        ensures
            match r {
                Some(m) => self@.contains_key(manager_id) && self@[manager_id].manager == *m,
                None => !self@.contains_key(manager_id),
            },
    {
        match self.managers.get(&manager_id) {
            Some(e) => Some(&e.manager),
            None => None,
        }
    }

    /// A registered manager that serves `kind`, if any: the first that the
    /// walk of the table meets, which this does not fix.
    pub fn get_manager(&self, kind: ExecutionContextKind) -> (r: Option<&M>)
        ensures
            match r {
                Some(m) => exists|id: u128|
                    #[trigger] self@.contains_key(id) && self@[id].kind == kind && self@[id].manager == *m,
                None => !serves_kind(self@, kind),
            },
    {
        let ghost vals = IteratorSpec::remaining(&spec_values_iter(&self.managers)).unref();
        for e in it: self.managers.values()
            invariant
                it.seq().unref() == vals,
                vals.to_set() == self@.values(),
                forall|j: int| 0 <= j < it.index() ==> (#[trigger] vals[j]).kind != kind,
        {
            if e.kind == kind {
                proof {
                    assert(vals.to_set().contains(*e));
                    assert(self@.values().contains(*e));
                }
                return Some(&e.manager);
            }
        }
        proof {
            assert forall|id: u128| #[trigger] self@.contains_key(id) implies self@[id].kind != kind by {
                assert(self@.values().contains(self@[id]));
                assert(vals.to_set().contains(self@[id]));
                let j = choose|j: int| 0 <= j < vals.len() && vals[j] == self@[id];
                assert(vals[j].kind != kind);
            }
        }
        None
    }
}

/// A manager registered under an id is found under that id, the other
/// registrations stay as they were, and some manager then serves its kind.
pub proof fn law_registered_manager_is_found<M>(
    entries: Map<u128, RegisteredManager<M>>,
    id: u128,
    kind: ExecutionContextKind,
    m: M,
)
    ensures
        ({
            let after = entries.insert(id, RegisteredManager { manager_id: id, kind, manager: m });
            &&& after.contains_key(id)
            &&& after[id].manager == m
            &&& after[id].kind == kind
            &&& forall|other: u128|
                #[trigger] entries.contains_key(other) && other != id ==> after.contains_key(other)
                    && after[other] == entries[other]
            &&& serves_kind(after, kind)
        }),
{
    let after = entries.insert(id, RegisteredManager { manager_id: id, kind, manager: m });
    assert(after.contains_key(id) && after[id].kind == kind);
}

} // verus!
