//! The coordinator's decisions: how many launchers it admits, which
//! pipeline each launcher drives, and how a teardown ends.

use std::collections::HashMap;

use vstd::prelude::*;
use vstd::std_specs::hash::spec_keys_iter;
use vstd::std_specs::iter::IteratorSpec;

use crate::error::Error;
use crate::ids::{hyphenated_text, uuid_string};
use crate::pipeline::{PipelineDefinition, UtcTimestamp};
use crate::status::CoordinatorStatus;
use crate::text::{decimal_string, decimal_text};

verus! {

/// A coordinator process, as stored.
#[derive(Debug)]
pub struct Coordinator {
    pub id: u128,
    pub hostname: String,
    pub host_pid: i32,
    pub is_leader: bool,
    pub status: CoordinatorStatus,
    pub version: String,
    pub last_heartbeat: UtcTimestamp,
    pub started_at: UtcTimestamp,
    pub terminated_at: Option<UtcTimestamp>,
    pub metadata: Option<serde_json::Value>,
}

/// Configuration of a coordinator.
pub struct CoordinatorConfig {
    /// The most launchers that may run at once.
    pub max_launchers: usize,
}

/// Lifecycle status that a launcher reports.
#[derive(Clone, Copy, Debug, PartialEq, Eq, Structural)]
pub enum LauncherStatus {
    Initializing,
    Running,
    Terminating,
    Terminated,
}

/// What the coordinator knows of a launcher it started.
#[derive(Clone, Copy, Debug, PartialEq, Eq, Structural)]
pub struct ManagedLauncher {
    pub id: u128,
    pub current_pipeline_id: Option<u128>,
    pub current_run_id: Option<u128>,
}

/// The coordinator's table of active launchers, by launcher id.
pub struct LauncherTable {
    launchers: HashMap<u128, ManagedLauncher>,
}

/// The message of the error for an unknown launcher or pipeline.
pub open spec fn not_found(e: Error, resource_type: Seq<char>, id: u128) -> bool {
    e matches Error::NotFound { resource_type: t, resource_id: r } && t@ == resource_type && r@
        == hyphenated_text(id)
}

impl View for LauncherTable {
    type V = Map<u128, ManagedLauncher>;

    closed spec fn view(&self) -> Map<u128, ManagedLauncher> {
        self.launchers@
    }
}

impl LauncherTable {
    /// Each launcher is listed under its own id.
    pub closed spec fn wf(&self) -> bool {
        forall|id: u128| #[trigger] self.launchers@.contains_key(id) ==> self.launchers@[id].id == id
    }

    /// An empty table.
    pub fn new() -> (t: LauncherTable)
        ensures
            t.wf(),
            t@ == Map::<u128, ManagedLauncher>::empty(),
    {
        LauncherTable { launchers: HashMap::new() }
    }

    /// The number of active launchers.
    pub fn len(&self) -> (n: usize)
        requires
            self.wf(),
        ensures
            n == self@.dom().len(),
    {
        self.launchers.len()
    }

    /// Whether another launcher may start: fewer than `max_launchers` run.
    pub fn can_admit(&self, config: &CoordinatorConfig) -> (b: bool)
        requires
            self.wf(),
        ensures
            b == (self@.dom().len() < config.max_launchers),
    {
        self.len() < config.max_launchers
    }

    /// Records a newly started launcher, driving no pipeline yet.
    pub fn add_launcher(&mut self, launcher_id: u128)
        requires
            old(self).wf(),
            !old(self)@.contains_key(launcher_id),
        ensures
            final(self).wf(),
            final(self)@ == old(self)@.insert(
                launcher_id,
                ManagedLauncher { id: launcher_id, current_pipeline_id: None, current_run_id: None },
            ),
    {
        let entry = ManagedLauncher { id: launcher_id, current_pipeline_id: None, current_run_id: None };
        self.launchers.insert(launcher_id, entry);
    }

    /// Records that launcher `launcher_id` drives pipeline `pipeline_id`;
    /// fails when no such launcher is active.
    pub fn assign_pipeline(&mut self, launcher_id: u128, pipeline_id: u128) -> (r: Result<(), Error>)
        requires
            old(self).wf(),
        ensures
            final(self).wf(),
            match r {
                Ok(()) => old(self)@.contains_key(launcher_id) && final(self)@ == old(self)@.insert(
                    launcher_id,
                    ManagedLauncher { current_pipeline_id: Some(pipeline_id), ..old(self)@[launcher_id] },
                ),
                Err(e) => !old(self)@.contains_key(launcher_id) && final(self)@ == old(self)@
                    && not_found(e, "ManagedLauncher"@, launcher_id),
            },
    {
        let found = match self.launchers.get(&launcher_id) {
            Some(l) => Some(*l),
            None => None,
        };
        match found {
            None => {
                let resource_type = "ManagedLauncher".to_owned();
                let resource_id = uuid_string(launcher_id);
                Err(Error::NotFound { resource_type, resource_id })
            },
            Some(l) => {
                let mut entry = l;
                entry.current_pipeline_id = Some(pipeline_id);
                self.launchers.insert(launcher_id, entry);
                Ok(())
            },
        }
    }

    /// Takes launcher `launcher_id` out of the table, returning its entry.
    pub fn remove_launcher(&mut self, launcher_id: u128) -> (r: Option<ManagedLauncher>)
        requires
            old(self).wf(),
        ensures
            final(self).wf(),
            final(self)@ == old(self)@.remove(launcher_id),
            r == if old(self)@.contains_key(launcher_id) {
                Some(old(self)@[launcher_id])
            } else {
                None::<ManagedLauncher>
            },
    {
        self.launchers.remove(&launcher_id)
    }

    /// The ids of the active launchers, each once, in no stated order.
    pub fn launcher_ids(&self) -> (ids: Vec<u128>)
        requires
            self.wf(),
        ensures
            forall|id: u128| ids@.contains(id) <==> self@.contains_key(id),
            ids@.len() == self@.dom().len(),
            ids@.no_duplicates(),
    {
        let ghost keys_seq = IteratorSpec::remaining(&spec_keys_iter(&self.launchers)).unref();
        let mut ids: Vec<u128> = Vec::new();
        for id in it: self.launchers.keys()
            invariant
                it.seq().unref() == keys_seq,
                ids@ == keys_seq.take(it.index() as int),
        {
            proof {
                assert(keys_seq.take(it.index() + 1) =~= keys_seq.take(it.index() as int).push(*id));
            }
            ids.push(*id);
        }
        assert(ids@ =~= keys_seq);
        ids
    }
}

/// The message of the error that ends a teardown in which some launchers
/// did not acknowledge termination.
pub open spec fn teardown_failure_message(failed: nat) -> Seq<char> {
    "Failed to terminate "@ + decimal_text(failed) + " launchers"@
}

/// How a coordinator teardown ends, given the launchers that did not
/// acknowledge their termination: it fails when there is any.
pub fn teardown_outcome(errored_launchers: &Vec<u128>) -> (r: Result<(), Error>)
    ensures
        match r {
            Ok(()) => errored_launchers@.len() == 0,
            Err(e) => errored_launchers@.len() > 0 && (e matches Error::Internal(m) && m@
                == teardown_failure_message(errored_launchers@.len())),
        },
{
    if errored_launchers.len() == 0 {
        return Ok(());
    }
    let n = errored_launchers.len() as u64;
    let m = "Failed to terminate ".to_owned();
    let m = m.concat(decimal_string(n).as_str());
    let m = m.concat(" launchers");
    Err(Error::Internal(m))
}

/// The message of the error for a submission beyond the launcher limit.
pub open spec fn max_launchers_message() -> Seq<char> {
    "Max launchers reached"@
}

/// Refuses a pipeline submission when the launcher limit is reached.
pub fn admit_submission(table: &LauncherTable, config: &CoordinatorConfig) -> (r: Result<(), Error>)
    requires
        table.wf(),
    ensures
        match r {
            Ok(()) => table@.dom().len() < config.max_launchers,
            Err(e) => table@.dom().len() >= config.max_launchers && (e matches Error::Internal(m)
                && m@ == max_launchers_message()),
        },
{
    if table.can_admit(config) {
        Ok(())
    } else {
        Err(Error::Internal("Max launchers reached".to_owned()))
    }
}

/// The definition to hand to a launcher for pipeline `pipeline_id`, from
/// what the store found under that id: an error naming the pipeline when it
/// found nothing.
pub fn definition_to_assign(found: Option<PipelineDefinition>, pipeline_id: u128) -> (r: Result<
    PipelineDefinition,
    Error,
>)
    ensures
        match found {
            Some(d) => r is Ok && r->Ok_0 == d,
            None => r is Err && not_found(r->Err_0, "PipelineDefinition"@, pipeline_id),
        },
{
    match found {
        Some(d) => Ok(d),
        None => Err(
            Error::NotFound {
                resource_type: String::from_str("PipelineDefinition"),
                resource_id: uuid_string(pipeline_id),
            },
        ),
    }
}

/// The error that answers a submission when starting or assigning its
/// launcher failed: an internal error with the failure's text.
pub fn submission_failure(err: Error) -> (e: Error)
    ensures
        exists|detail: Seq<char>| e.is_internal_with(#[trigger] err.displayed(detail)),
{
    let text = err.message();
    let ghost detail = choose|detail: Seq<char>| text@ == err.displayed(detail);
    let e = Error::Internal(text);
    assert(e.is_internal_with(err.displayed(detail)));
    e
}

/// A launcher table admits no more launchers than its limit: a launcher
/// added after an admitted submission leaves the table within the limit.
pub proof fn law_admission_keeps_launcher_limit(
    before: Map<u128, ManagedLauncher>,
    launcher_id: u128,
    max_launchers: usize,
)
    requires
        before.dom().finite(),
        before.dom().len() < max_launchers,
        !before.contains_key(launcher_id),
    ensures
        before.insert(
            launcher_id,
            ManagedLauncher { id: launcher_id, current_pipeline_id: None, current_run_id: None },
        ).dom().len() <= max_launchers,
{
    let entry = ManagedLauncher { id: launcher_id, current_pipeline_id: None, current_run_id: None };
    assert(before.insert(launcher_id, entry).dom() =~= before.dom().insert(launcher_id));
}

} // verus!
