//! The launcher's bookkeeping for the pipeline run that it drives: the
//! status and attempt count of each task, and the scheduling decisions
//! taken from them.

use std::collections::HashMap;

use vstd::prelude::*;
use vstd::std_specs::hash::group_hash_axioms;

use crate::error::Error;
use crate::execution_graph::{
    completion_status, id_in_prefix, ready_task_ids, task_index, PipelineExecutionGraph,
};
use crate::ids::{hyphenated_text, uuid_new_v4, uuid_string};
use crate::pipeline::PipelineDefinition;
use crate::resource_manager::{ProvisionedWorkerDetails, ProvisionedWorkerStatus};
use crate::status::{PipelineRunStatus, TaskRunStatus, TaskStatus};
use crate::text::{signed_decimal_string, signed_decimal_text};
use crate::task::TaskDefinition;

verus! {

broadcast use group_hash_axioms;

/// A worker that the launcher started and still watches.
#[derive(Debug)]
pub struct ActiveWorkerInfo {
    /// The id of the execution attempt.
    pub worker_id: u128,
    pub task_id: u128,
    pub attempt: u32,
    pub provisioned_details: ProvisionedWorkerDetails,
    pub task_name: String,
}

/// A task attempt to start.
#[derive(Debug, PartialEq, Eq, Structural)]
pub struct TaskToLaunch {
    pub task_def_id: u128,
    pub pipeline_run_id: u128,
    /// The number of the attempt, counting from one.
    pub attempt: i32,
}

/// A ready task that has used up its attempts.
pub struct TaskExceedingRetries {
    pub task_def_id: u128,
    pub pipeline_run_id: u128,
    pub completed_attempts: i32,
    pub max_retries_allowed: i32,
    pub task_name: String,
}

/// What one scheduling round is to do.
pub struct SchedulingInfo {
    pub pipeline_run_id: u128,
    pub tasks_to_launch: Vec<TaskToLaunch>,
    pub tasks_to_fail: Vec<TaskExceedingRetries>,
}

/// What a finished worker reports back to its launcher.
#[derive(Debug)]
pub struct WorkerResult {
    /// The id the launcher gave this execution attempt.
    pub assigned_worker_id: u128,
    pub task_id: u128,
    pub attempt: u32,
    pub final_status: TaskRunStatus,
    pub message: Option<String>,
}

/// The note recorded on a task run whose worker could not be started, given
/// the text of the failure.
pub fn launch_failure_note(failure: &str) -> (s: String)
    ensures
        s@ == "Launch worker failed: "@ + failure@,
{
    String::from_str("Launch worker failed: ").concat(failure)
}

/// The note recorded on a task run failed for using up its attempts.
pub fn retries_exceeded_note(max_retries_allowed: i32) -> (s: String)
    ensures
        s@ == "Exceeded max retries ("@ + signed_decimal_text(max_retries_allowed as int) + ")"@,
{
    String::from_str("Exceeded max retries (").concat(
        signed_decimal_string(max_retries_allowed).as_str(),
    ).concat(")")
}

/// The launcher's state for its current pipeline run.
pub struct LauncherState {
    /// The launcher's own id.
    pub id: u128,
    pub current_pipeline_definition_id: Option<u128>,
    pub current_pipeline_run_id: Option<u128>,
    pub execution_graph: Option<PipelineExecutionGraph>,
    /// The status of each task, by task id.
    pub task_states: HashMap<u128, TaskRunStatus>,
    /// The attempts made so far of each task, by task id.
    pub task_attempts: HashMap<u128, i32>,
    /// The id of the task run recorded for each task, by task id.
    pub run_def_map: HashMap<u128, u128>,
    /// The workers started and not yet settled.
    pub active_workers: Vec<ActiveWorkerInfo>,
}

/// The attempts made so far of a task.
pub open spec fn completed_attempts(attempts: Map<u128, i32>, id: u128) -> int {
    if attempts.contains_key(id) {
        attempts[id] as int
    } else {
        0
    }
}

/// The number of attempts a task may make: its own limit, or three.
pub open spec fn max_total_attempts(t: TaskDefinition) -> int {
    match t.max_attempts {
        Some(m) => m as int,
        None => 3,
    }
}

/// Whether a watched worker runs task `id`.
pub open spec fn has_active_worker(workers: Seq<ActiveWorkerInfo>, id: u128) -> bool {
    exists|i: int| 0 <= i < workers.len() && #[trigger] workers[i].task_id == id
}

/// The attempts to start for the ready tasks `ids`, in order: each ready
/// task without a watched worker whose next attempt is within its limit.
pub open spec fn launches_for(
    ids: Seq<u128>,
    defs: Seq<TaskDefinition>,
    attempts: Map<u128, i32>,
    workers: Seq<ActiveWorkerInfo>,
    run_id: u128,
) -> Seq<TaskToLaunch>
    decreases ids.len(),
{
    if ids.len() == 0 {
        Seq::empty()
    } else {
        let rest = launches_for(ids.drop_last(), defs, attempts, workers, run_id);
        let id = ids.last();
        let t = defs[task_index(defs, id)];
        let next = completed_attempts(attempts, id) + 1;
        if !has_active_worker(workers, id) && next <= max_total_attempts(t) {
            rest.push(TaskToLaunch { task_def_id: id, pipeline_run_id: run_id, attempt: next as i32 })
        } else {
            rest
        }
    }
}

/// The ready tasks `ids` that have used up their attempts, in order.
pub open spec fn failures_for(
    ids: Seq<u128>,
    defs: Seq<TaskDefinition>,
    attempts: Map<u128, i32>,
    workers: Seq<ActiveWorkerInfo>,
    run_id: u128,
) -> Seq<TaskExceedingRetries>
    decreases ids.len(),
{
    if ids.len() == 0 {
        Seq::empty()
    } else {
        let rest = failures_for(ids.drop_last(), defs, attempts, workers, run_id);
        let id = ids.last();
        let t = defs[task_index(defs, id)];
        let completed = completed_attempts(attempts, id);
        if !has_active_worker(workers, id) && completed + 1 > max_total_attempts(t) {
            rest.push(
                TaskExceedingRetries {
                    task_def_id: id,
                    pipeline_run_id: run_id,
                    completed_attempts: completed as i32,
                    max_retries_allowed: max_total_attempts(t) as i32,
                    task_name: t.name,
                },
            )
        } else {
            rest
        }
    }
}

impl LauncherState {
    /// The ready tasks of the current run.
    pub open spec fn ready_ids(&self) -> Seq<u128>
        recommends
            self.execution_graph is Some,
    {
        let g = self.execution_graph->0;
        ready_task_ids(g.tasks(), self.task_states@, g.tasks().len() as int)
    }

    /// A launcher that drives no run yet.
    pub fn new(id: u128) -> (s: LauncherState)
        ensures
            s.id == id,
            s.current_pipeline_definition_id is None,
            s.current_pipeline_run_id is None,
            s.execution_graph is None,
            s.task_states@ == Map::<u128, TaskRunStatus>::empty(),
            s.task_attempts@ == Map::<u128, i32>::empty(),
            s.run_def_map@ == Map::<u128, u128>::empty(),
            s.active_workers@.len() == 0,
    {
        LauncherState {
            id,
            current_pipeline_definition_id: None,
            current_pipeline_run_id: None,
            execution_graph: None,
            task_states: HashMap::new(),
            task_attempts: HashMap::new(),
            run_def_map: HashMap::new(),
            active_workers: Vec::new(),
        }
    }

    /// Whether a watched worker runs task `task_id`.
    pub fn is_task_active(&self, task_id: u128) -> (b: bool)
        ensures
            b == has_active_worker(self.active_workers@, task_id),
    {
        let mut i: usize = 0;
        while i < self.active_workers.len()
            invariant
                0 <= i <= self.active_workers@.len(),
                forall|j: int| 0 <= j < i ==> #[trigger] self.active_workers@[j].task_id != task_id,
            decreases self.active_workers@.len() - i,
        {
            if self.active_workers[i].task_id == task_id {
                return true;
            }
            i += 1;
        }
        false
    }

    /// Gathers what one scheduling round is to do: the ready tasks to start,
    /// with the number of their next attempt, and the ready tasks that have
    /// used up their attempts. Tasks with a watched worker are left alone.
    pub fn gather_scheduling_info(&self) -> (r: Result<Option<SchedulingInfo>, Error>)
        requires
            self.execution_graph matches Some(g) ==> g.wf(),
            forall|id: u128|
                #[trigger] self.task_attempts@.contains_key(id) ==> self.task_attempts@[id]
                    < i32::MAX,
        ensures
            match r {
                Ok(Some(info)) => {
                    &&& self.execution_graph is Some
                    &&& self.current_pipeline_run_id == Some(info.pipeline_run_id)
                    &&& info.tasks_to_launch@ == launches_for(
                        self.ready_ids(),
                        self.execution_graph->0.tasks(),
                        self.task_attempts@,
                        self.active_workers@,
                        info.pipeline_run_id,
                    )
                    &&& info.tasks_to_fail@ == failures_for(
                        self.ready_ids(),
                        self.execution_graph->0.tasks(),
                        self.task_attempts@,
                        self.active_workers@,
                        info.pipeline_run_id,
                    )
                },
                Ok(None) => false,
                Err(e) => if self.execution_graph is None {
                    e matches Error::Internal(m) && m@ == "Execution graph missing for scheduling"@
                } else {
                    self.current_pipeline_run_id is None && (e matches Error::Internal(m) && m@
                        == "Pipeline run ID missing for scheduling"@)
                },
            },
    {
        let graph = match &self.execution_graph {
            Some(g) => g,
            None => {
                return Err(Error::Internal("Execution graph missing for scheduling".to_owned()));
            },
        };
        let current_pipeline_run_id = match self.current_pipeline_run_id {
            Some(id) => id,
            None => {
                return Err(Error::Internal("Pipeline run ID missing for scheduling".to_owned()));
            },
        };
        let ready_tasks = graph.get_ready_tasks(&self.task_states);
        let ghost ready = ready_tasks@;
        let ghost defs = graph.tasks();
        let mut tasks_to_launch: Vec<TaskToLaunch> = Vec::new();
        let mut tasks_to_fail: Vec<TaskExceedingRetries> = Vec::new();
        let mut i: usize = 0;
        while i < ready_tasks.len()
            invariant
                graph.wf(),
                defs == graph.tasks(),
                ready == ready_tasks@,
                ready == ready_task_ids(defs, self.task_states@, defs.len() as int),
                0 <= i <= ready.len(),
                forall|id: u128|
                    #[trigger] self.task_attempts@.contains_key(id) ==> self.task_attempts@[id]
                        < i32::MAX,
                tasks_to_launch@ == launches_for(
                    ready.take(i as int),
                    defs,
                    self.task_attempts@,
                    self.active_workers@,
                    current_pipeline_run_id,
                ),
                tasks_to_fail@ == failures_for(
                    ready.take(i as int),
                    defs,
                    self.task_attempts@,
                    self.active_workers@,
                    current_pipeline_run_id,
                ),
            decreases ready.len() - i,
        {
            let task_id = ready_tasks[i];
            proof {
                lemma_ready_ids_are_tasks(defs, self.task_states@, defs.len() as int, i as int);
                assert(ready.take(i + 1).drop_last() =~= ready.take(i as int));
            }
            let task_def = match graph.get_task_definition(task_id) {
                Some(t) => t,
                None => {
                    return Err(Error::Internal("Failed to find TaskDefinition for ready task".to_owned()));
                },
            };
            let completed_attempts: i32 = match self.task_attempts.get(&task_id) {
                Some(a) => *a,
                None => 0,
            };
            let next_attempt = completed_attempts + 1;
            let max_total_attempts: i32 = match task_def.max_attempts {
                Some(m) => m,
                None => 3,
            };
            if !self.is_task_active(task_id) {
                if next_attempt <= max_total_attempts {
                    tasks_to_launch.push(
                        TaskToLaunch {
                            task_def_id: task_id,
                            pipeline_run_id: current_pipeline_run_id,
                            attempt: next_attempt,
                        },
                    );
                } else {
                    tasks_to_fail.push(
                        TaskExceedingRetries {
                            task_def_id: task_id,
                            pipeline_run_id: current_pipeline_run_id,
                            completed_attempts,
                            max_retries_allowed: max_total_attempts,
                            task_name: task_def.name.clone(),
                        },
                    );
                }
            }
            i += 1;
        }
        proof {
            assert(ready.take(ready.len() as int) =~= ready);
        }
        Ok(
            Some(
                SchedulingInfo {
                    pipeline_run_id: current_pipeline_run_id,
                    tasks_to_launch,
                    tasks_to_fail,
                },
            ),
        )
    }
}

/// Each ready id is the id of a task of the graph.
proof fn lemma_ready_ids_are_tasks(
    defs: Seq<TaskDefinition>,
    states: Map<u128, TaskRunStatus>,
    n: int,
    i: int,
)
    requires
        0 <= n <= defs.len(),
        0 <= i < ready_task_ids(defs, states, n).len(),
    ensures
        id_in_prefix(defs, defs.len() as int, ready_task_ids(defs, states, n)[i]),
    decreases n,
{
    if n > 0 {
        let rest = ready_task_ids(defs, states, n - 1);
        if i < rest.len() {
            lemma_ready_ids_are_tasks(defs, states, n - 1, i);
        } else {
            assert(defs[n - 1].id == ready_task_ids(defs, states, n)[i]);
        }
    }
}

} // verus!

verus! {

/// The message of the error for a task without a recorded task run.
pub open spec fn missing_task_run_message(task_def_id: u128) -> Seq<char> {
    "Failed to find TaskRun ID for task ID "@ + hyphenated_text(task_def_id)
        + ". This is a logic error."@
}

/// The task status that a worker status stands for.
pub open spec fn task_status_for(em: ProvisionedWorkerStatus) -> TaskStatus {
    match em {
        ProvisionedWorkerStatus::Succeeded => TaskStatus::Succeeded,
        ProvisionedWorkerStatus::Failed => TaskStatus::Failed,
        ProvisionedWorkerStatus::Cancelled => TaskStatus::Cancelled,
        ProvisionedWorkerStatus::TimedOut => TaskStatus::Failed,
        ProvisionedWorkerStatus::Terminated => TaskStatus::Cancelled,
        ProvisionedWorkerStatus::ErrorState(_) => TaskStatus::Failed,
        ProvisionedWorkerStatus::Running => TaskStatus::Running,
        ProvisionedWorkerStatus::Initializing | ProvisionedWorkerStatus::Pending => TaskStatus::Queued,
        ProvisionedWorkerStatus::Terminating => TaskStatus::Running,
        ProvisionedWorkerStatus::Unknown(_) => TaskStatus::Running,
    }
}

/// The message logged with a worker status, if any.
pub open spec fn status_message_for(em: ProvisionedWorkerStatus) -> Option<Seq<char>> {
    match em {
        ProvisionedWorkerStatus::Succeeded => Some("Completed successfully (per EM)"@),
        ProvisionedWorkerStatus::Failed => Some("Failed (per EM)"@),
        ProvisionedWorkerStatus::Cancelled => Some("Cancelled (per EM)"@),
        ProvisionedWorkerStatus::TimedOut => Some("Timed out (per EM)"@),
        ProvisionedWorkerStatus::Terminated => Some(
            "Terminated by EM (interpreted as Cancelled/Failed)"@,
        ),
        ProvisionedWorkerStatus::ErrorState(m) => Some("EM ErrorState: "@ + m@),
        ProvisionedWorkerStatus::Running => None,
        ProvisionedWorkerStatus::Initializing | ProvisionedWorkerStatus::Pending => None,
        ProvisionedWorkerStatus::Terminating => Some("Terminating (per EM)"@),
        ProvisionedWorkerStatus::Unknown(m) => match m {
            Some(m) => Some(m@),
            None => Some("Status unknown from EM"@),
        },
    }
}

/// A worker's status decides the task's: the task succeeded exactly when the
/// worker succeeded; it failed exactly when the worker failed, timed out or
/// met an error; it was cancelled exactly when the worker was cancelled or
/// terminated; it is queued exactly while the worker is pending or starting,
/// and it runs otherwise. A worker has stopped for good exactly when the
/// task's status is settled, and then a message is always logged.
pub proof fn law_worker_status_decides_task_status(em: ProvisionedWorkerStatus)
    ensures
        (task_status_for(em) == TaskStatus::Succeeded) <==> em is Succeeded,
        (task_status_for(em) == TaskStatus::Failed) <==> (em is Failed || em is TimedOut
            || em is ErrorState),
        (task_status_for(em) == TaskStatus::Cancelled) <==> (em is Cancelled || em is Terminated),
        (task_status_for(em) == TaskStatus::Queued) <==> (em is Pending || em is Initializing),
        (task_status_for(em) == TaskStatus::Running) <==> (em is Running || em is Terminating
            || em is Unknown),
        em.spec_is_terminal() <==> (em is Succeeded || em is Failed || em is Cancelled
            || em is TimedOut || em is Terminated || em is ErrorState),
        em.spec_is_terminal() <==> (task_status_for(em) == TaskStatus::Succeeded || task_status_for(
            em,
        ) == TaskStatus::Failed || task_status_for(em) == TaskStatus::Cancelled),
        em.spec_is_terminal() ==> status_message_for(em) is Some,
        em is Succeeded ==> status_message_for(em) == Some("Completed successfully (per EM)"@),
        em is Failed ==> status_message_for(em) == Some("Failed (per EM)"@),
{
}

/// The text of an optional string.
pub open spec fn option_text(o: Option<String>) -> Option<Seq<char>> {
    match o {
        Some(s) => Some(s@),
        None => None,
    }
}

impl LauncherState {
    /// Forgets the current run: its ids, graph, task statuses and attempt
    /// counts. Watched workers and recorded task runs stay.
    pub fn cleanup_current_pipeline_state(&mut self)
        ensures
            final(self).id == old(self).id,
            final(self).current_pipeline_definition_id is None,
            final(self).current_pipeline_run_id is None,
            final(self).execution_graph is None,
            final(self).task_states@ == Map::<u128, TaskRunStatus>::empty(),
            final(self).task_attempts@ == Map::<u128, i32>::empty(),
            final(self).run_def_map@ == old(self).run_def_map@,
            final(self).active_workers@ == old(self).active_workers@,
    {
        self.current_pipeline_definition_id = None;
        self.current_pipeline_run_id = None;
        self.execution_graph = None;
        self.task_states.clear();
        self.task_attempts.clear();
    }

    /// Starts a new run of pipeline `pipeline_def_id` with a fresh run id,
    /// after forgetting the previous run, and returns the run id.
    pub fn begin_pipeline_run(&mut self, pipeline_def_id: u128) -> (run_id: u128)
        ensures
            final(self).id == old(self).id,
            final(self).current_pipeline_definition_id == Some(pipeline_def_id),
            final(self).current_pipeline_run_id == Some(run_id),
            final(self).execution_graph is None,
            final(self).task_states@ == Map::<u128, TaskRunStatus>::empty(),
            final(self).task_attempts@ == Map::<u128, i32>::empty(),
            final(self).run_def_map@ == old(self).run_def_map@,
            final(self).active_workers@ == old(self).active_workers@,
    {
        self.cleanup_current_pipeline_state();
        let pipeline_run_id = uuid_new_v4();
        self.current_pipeline_definition_id = Some(pipeline_def_id);
        self.current_pipeline_run_id = Some(pipeline_run_id);
        pipeline_run_id
    }

    /// Builds the execution graph of the run's pipeline, keeps it and
    /// returns the ids of its tasks, in order. On failure the state is left
    /// as it was.
    pub fn install_execution_graph(&mut self, pipeline_def: PipelineDefinition) -> (r: Result<
        Vec<u128>,
        Error,
    >)
        requires
            pipeline_def.task_definitions@.len() < u32::MAX,
            crate::execution_graph::dependency_count(
                pipeline_def.task_definitions@,
                pipeline_def.task_definitions@.len() as int,
            ) < u32::MAX,
        ensures
            final(self).id == old(self).id,
            final(self).current_pipeline_definition_id == old(self).current_pipeline_definition_id,
            final(self).current_pipeline_run_id == old(self).current_pipeline_run_id,
            final(self).task_states@ == old(self).task_states@,
            final(self).task_attempts@ == old(self).task_attempts@,
            final(self).run_def_map@ == old(self).run_def_map@,
            final(self).active_workers@ == old(self).active_workers@,
            match r {
                Ok(ids) => crate::execution_graph::graph_defect(pipeline_def.task_definitions@) is None
                    && (final(self).execution_graph matches Some(g) && g.wf() && g.tasks()
                    == pipeline_def.task_definitions@ && ids@ == crate::execution_graph::ids_of(
                    g.tasks(),
                )),
                Err(e) => final(self).execution_graph == old(self).execution_graph && match crate::execution_graph::graph_defect(
                    pipeline_def.task_definitions@,
                ) {
                    Some(d) => crate::execution_graph::reports_defect(e, d, pipeline_def.info.id),
                    None => false,
                },
            },
    {
        let graph = PipelineExecutionGraph::new(pipeline_def)?;
        let ids = graph.get_all_task_ids();
        self.execution_graph = Some(graph);
        Ok(ids)
    }

    /// Records task `task_def_id` as pending.
    pub fn mark_task_pending(&mut self, task_def_id: u128)
        ensures
            final(self).task_states@ == old(self).task_states@.insert(
                task_def_id,
                TaskRunStatus::Pending,
            ),
            final(self).id == old(self).id,
            final(self).current_pipeline_definition_id == old(self).current_pipeline_definition_id,
            final(self).current_pipeline_run_id == old(self).current_pipeline_run_id,
            final(self).execution_graph == old(self).execution_graph,
            final(self).task_attempts@ == old(self).task_attempts@,
            final(self).run_def_map@ == old(self).run_def_map@,
            final(self).active_workers@ == old(self).active_workers@,
    {
        self.task_states.insert(task_def_id, TaskRunStatus::Pending);
    }

    /// The task run recorded for task `task_def_id`.
    pub fn task_run_id(&self, task_def_id: u128) -> (r: Result<u128, Error>)
        ensures
            match r {
                Ok(id) => self.run_def_map@.contains_key(task_def_id) && id
                    == self.run_def_map@[task_def_id],
                Err(e) => !self.run_def_map@.contains_key(task_def_id) && (e matches Error::Internal(
                    m,
                ) && m@ == missing_task_run_message(task_def_id)),
            },
    {
        match self.run_def_map.get(&task_def_id) {
            Some(id) => Ok(*id),
            None => {
                let m = "Failed to find TaskRun ID for task ID ".to_owned();
                let m = m.concat(uuid_string(task_def_id).as_str());
                let m = m.concat(". This is a logic error.");
                Err(Error::Internal(m))
            },
        }
    }

    /// Records that starting attempt `attempt` of a task failed: the task
    /// has failed after that attempt.
    pub fn record_launch_failure(&mut self, task_def_id: u128, attempt: i32)
        ensures
            final(self).task_states@ == old(self).task_states@.insert(
                task_def_id,
                TaskRunStatus::Failed,
            ),
            final(self).task_attempts@ == old(self).task_attempts@.insert(task_def_id, attempt),
            final(self).id == old(self).id,
            final(self).current_pipeline_definition_id == old(self).current_pipeline_definition_id,
            final(self).current_pipeline_run_id == old(self).current_pipeline_run_id,
            final(self).execution_graph == old(self).execution_graph,
            final(self).run_def_map@ == old(self).run_def_map@,
            final(self).active_workers@ == old(self).active_workers@,
    {
        self.task_states.insert(task_def_id, TaskRunStatus::Failed);
        self.task_attempts.insert(task_def_id, attempt);
    }

    /// Records that a task used up its attempts: it has failed, after the
    /// attempts it made.
    pub fn record_retries_exceeded(&mut self, fail_info: &TaskExceedingRetries)
        ensures
            final(self).task_states@ == old(self).task_states@.insert(
                fail_info.task_def_id,
                TaskRunStatus::Failed,
            ),
            final(self).task_attempts@ == old(self).task_attempts@.insert(
                fail_info.task_def_id,
                fail_info.completed_attempts,
            ),
            final(self).id == old(self).id,
            final(self).current_pipeline_definition_id == old(self).current_pipeline_definition_id,
            final(self).current_pipeline_run_id == old(self).current_pipeline_run_id,
            final(self).execution_graph == old(self).execution_graph,
            final(self).run_def_map@ == old(self).run_def_map@,
            final(self).active_workers@ == old(self).active_workers@,
    {
        self.task_states.insert(fail_info.task_def_id, TaskRunStatus::Failed);
        self.task_attempts.insert(fail_info.task_def_id, fail_info.completed_attempts);
    }

    /// The run to finalize and its final status, once the run is complete:
    /// there is a graph and a run id, no worker is watched, no monitor is
    /// polled, and every task has settled.
    pub fn completed_run(&self, monitors_polled: bool) -> (r: Option<(u128, PipelineRunStatus)>)
        requires
            self.execution_graph matches Some(g) ==> g.wf(),
        ensures
            r == if self.execution_graph is None || self.current_pipeline_run_id is None
                || self.active_workers@.len() > 0 || monitors_polled {
                None
            } else {
                match completion_status(self.execution_graph->0.tasks(), self.task_states@) {
                    Some(status) => Some((self.current_pipeline_run_id->0, status)),
                    None => None,
                }
            },
    {
        let graph = match &self.execution_graph {
            Some(g) => g,
            None => {
                return None;
            },
        };
        let run_id = match self.current_pipeline_run_id {
            Some(id) => id,
            None => {
                return None;
            },
        };
        if self.active_workers.len() > 0 || monitors_polled {
            return None;
        }
        match graph.is_pipeline_complete(&self.task_states) {
            Some(final_status) => Some((run_id, final_status)),
            None => None,
        }
    }

    /// Maps an execution manager's worker status to the task status to
    /// report, an optional message to log, and whether the worker has
    /// stopped for good.
    pub fn map_em_status_to_task_status(em_status: ProvisionedWorkerStatus) -> (r: (
        TaskStatus,
        Option<String>,
        bool,
    ))
        ensures
            r.0 == task_status_for(em_status),
            option_text(r.1) == status_message_for(em_status),
            r.2 == em_status.spec_is_terminal(),
            (r.0 == TaskStatus::Succeeded) <==> em_status is Succeeded,
    {
        match em_status {
            ProvisionedWorkerStatus::Succeeded => (
                TaskStatus::Succeeded,
                Some("Completed successfully (per EM)".to_owned()),
                true,
            ),
            ProvisionedWorkerStatus::Failed => (
                TaskStatus::Failed,
                Some("Failed (per EM)".to_owned()),
                true,
            ),
            ProvisionedWorkerStatus::Cancelled => (
                TaskStatus::Cancelled,
                Some("Cancelled (per EM)".to_owned()),
                true,
            ),
            ProvisionedWorkerStatus::TimedOut => (
                TaskStatus::Failed,
                Some("Timed out (per EM)".to_owned()),
                true,
            ),
            ProvisionedWorkerStatus::Terminated => (
                TaskStatus::Cancelled,
                Some("Terminated by EM (interpreted as Cancelled/Failed)".to_owned()),
                true,
            ),
            ProvisionedWorkerStatus::ErrorState(e_msg) => (
                TaskStatus::Failed,
                Some("EM ErrorState: ".to_owned().concat(e_msg.as_str())),
                true,
            ),
            ProvisionedWorkerStatus::Running => (TaskStatus::Running, None, false),
            ProvisionedWorkerStatus::Initializing | ProvisionedWorkerStatus::Pending => (
                TaskStatus::Queued,
                None,
                false,
            ),
            ProvisionedWorkerStatus::Terminating => (
                TaskStatus::Running,
                Some("Terminating (per EM)".to_owned()),
                false,
            ),
            ProvisionedWorkerStatus::Unknown(m_opt) => (
                TaskStatus::Running,
                match m_opt {
                    Some(m) => Some(m),
                    None => Some("Status unknown from EM".to_owned()),
                },
                false,
            ),
        }
    }
}

} // verus!

verus! {

/// Scheduling respects the attempt limits and never both starts and fails
/// a task: each attempt to start is the task's next one and within its
/// limit, each task failed for its attempts has no attempt left, both are
/// ready tasks, and no task is in both lists.
pub proof fn law_scheduling_respects_attempt_limits(
    ids: Seq<u128>,
    defs: Seq<TaskDefinition>,
    attempts: Map<u128, i32>,
    workers: Seq<ActiveWorkerInfo>,
    run_id: u128,
)
    requires
        forall|id: u128| #[trigger] attempts.contains_key(id) ==> attempts[id] < i32::MAX,
    ensures
        forall|i: int|
            0 <= i < launches_for(ids, defs, attempts, workers, run_id).len() ==> {
                let l = #[trigger] launches_for(ids, defs, attempts, workers, run_id)[i];
                &&& ids.contains(l.task_def_id)
                &&& !has_active_worker(workers, l.task_def_id)
                &&& l.attempt == completed_attempts(attempts, l.task_def_id) + 1
                &&& l.attempt <= max_total_attempts(defs[task_index(defs, l.task_def_id)])
                &&& l.pipeline_run_id == run_id
            },
        forall|i: int|
            0 <= i < failures_for(ids, defs, attempts, workers, run_id).len() ==> {
                let f = #[trigger] failures_for(ids, defs, attempts, workers, run_id)[i];
                &&& ids.contains(f.task_def_id)
                &&& !has_active_worker(workers, f.task_def_id)
                &&& f.completed_attempts == completed_attempts(attempts, f.task_def_id)
                &&& f.completed_attempts + 1 > f.max_retries_allowed
                &&& f.max_retries_allowed == max_total_attempts(defs[task_index(defs, f.task_def_id)])
            },
        forall|i: int, j: int|
            0 <= i < launches_for(ids, defs, attempts, workers, run_id).len() && 0 <= j
                < failures_for(ids, defs, attempts, workers, run_id).len() ==> (#[trigger] launches_for(
                ids,
                defs,
                attempts,
                workers,
                run_id,
            )[i]).task_def_id != (#[trigger] failures_for(ids, defs, attempts, workers, run_id)[j]).task_def_id,
    decreases ids.len(),
{
    if ids.len() > 0 {
        let init = ids.drop_last();
        law_scheduling_respects_attempt_limits(init, defs, attempts, workers, run_id);
        let id = ids.last();
        assert(ids[ids.len() - 1] == id);
        assert forall|x: u128| init.contains(x) implies ids.contains(x) by {
            let k = choose|k: int| 0 <= k < init.len() && init[k] == x;
            assert(ids[k] == x);
        }
        let launches = launches_for(ids, defs, attempts, workers, run_id);
        let failures = failures_for(ids, defs, attempts, workers, run_id);
        let old_launches = launches_for(init, defs, attempts, workers, run_id);
        let old_failures = failures_for(init, defs, attempts, workers, run_id);
        assert forall|i: int, j: int|
            0 <= i < launches.len() && 0 <= j < failures.len() implies (#[trigger] launches[i]).task_def_id
            != (#[trigger] failures[j]).task_def_id by {
            if i < old_launches.len() && j < old_failures.len() {
                assert(launches[i] == old_launches[i]);
                assert(failures[j] == old_failures[j]);
            } else if i >= old_launches.len() && j >= old_failures.len() {
            } else if i >= old_launches.len() {
                assert(failures[j] == old_failures[j]);
            } else {
                assert(launches[i] == old_launches[i]);
            }
        }
        assert forall|i: int| 0 <= i < launches.len() implies ids.contains(
            (#[trigger] launches[i]).task_def_id,
        ) by {
            if i < old_launches.len() {
                assert(launches[i] == old_launches[i]);
            }
        }
        assert forall|i: int| 0 <= i < failures.len() implies ids.contains(
            (#[trigger] failures[i]).task_def_id,
        ) by {
            if i < old_failures.len() {
                assert(failures[i] == old_failures[i]);
            }
        }
    }
}

/// A worker that has stopped for good settles its task: the task status
/// that the launcher records for it is a final one (succeeded, failed or
/// cancelled) exactly when the worker's status is terminal; while the worker
/// lives, the task is queued or running.
pub proof fn law_worker_outcome_settles_task(em: ProvisionedWorkerStatus)
    ensures
        em.spec_is_terminal() <==> (task_status_for(em) == TaskStatus::Succeeded
            || task_status_for(em) == TaskStatus::Failed || task_status_for(em)
            == TaskStatus::Cancelled),
        !em.spec_is_terminal() ==> (task_status_for(em) == TaskStatus::Running
            || task_status_for(em) == TaskStatus::Queued),
{
}

} // verus!
