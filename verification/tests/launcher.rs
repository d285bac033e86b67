use std::collections::HashMap;

use iodine::error::Error;
use iodine::launcher::{
    launch_failure_note, retries_exceeded_note, ActiveWorkerInfo, LauncherState,
    TaskExceedingRetries, TaskToLaunch,
};
use iodine::pipeline::{PipelineDefinition, PipelineInfo, UtcTimestamp};
use iodine::resource_manager::{ProvisionedWorkerDetails, ProvisionedWorkerStatus};
use iodine::status::{PipelineBackend, PipelineRunStatus, TaskRunStatus, TaskStatus};
use iodine::task::{
    ExecutionContext, ExecutionContextKind, LocalProcessExecutionContext, TaskDefinition,
};

fn task(id: u128, deps: Vec<u128>, max_attempts: Option<i32>) -> TaskDefinition {
    TaskDefinition {
        id,
        pipeline_def_id: 100,
        name: format!("task-{}", id),
        description: None,
        execution_ctx: ExecutionContext::LocalProcess(LocalProcessExecutionContext {
            entry_point: vec!["true".to_string()],
            args: vec![],
            env_vars: HashMap::new(),
            exec_timeout: None,
        }),
        max_attempts,
        depends_on: deps,
    }
}

fn pipeline() -> PipelineDefinition {
    PipelineDefinition {
        info: PipelineInfo {
            id: 100,
            name: "p".to_string(),
            description: String::new(),
            default_backend: PipelineBackend::Local,
            default_tags: None,
            metadata: None,
            created_at: UtcTimestamp { unix_nanos: 0 },
            updated_at: UtcTimestamp { unix_nanos: 0 },
        },
        task_definitions: vec![task(1, vec![], None), task(2, vec![1], Some(1)), task(3, vec![], Some(2))],
    }
}

fn started_launcher() -> (LauncherState, u128) {
    let mut l = LauncherState::new(9);
    let run_id = l.begin_pipeline_run(100);
    let ids = l.install_execution_graph(pipeline()).unwrap();
    assert_eq!(ids, vec![1, 2, 3]);
    for id in ids {
        l.mark_task_pending(id);
    }
    (l, run_id)
}

fn worker(task_id: u128) -> ActiveWorkerInfo {
    ActiveWorkerInfo {
        worker_id: 55,
        task_id,
        attempt: 1,
        provisioned_details: ProvisionedWorkerDetails {
            worker_id: 55,
            platform_id: "local_process_1".to_string(),
            manager_id: 77,
            resource_type_provisioned: ExecutionContextKind::LocalProcess,
        },
        task_name: format!("task-{}", task_id),
    }
}

#[test]
fn a_new_launcher_drives_no_run() {
    let l = LauncherState::new(9);
    assert_eq!(l.id, 9);
    assert!(l.current_pipeline_run_id.is_none());
    assert!(l.execution_graph.is_none());
    match l.gather_scheduling_info() {
        Err(Error::Internal(m)) => assert_eq!(m, "Execution graph missing for scheduling"),
        _ => panic!("expected an error"),
    }
}

#[test]
fn scheduling_needs_a_run_id() {
    let mut l = LauncherState::new(9);
    l.install_execution_graph(pipeline()).unwrap();
    match l.gather_scheduling_info() {
        Err(Error::Internal(m)) => assert_eq!(m, "Pipeline run ID missing for scheduling"),
        _ => panic!("expected an error"),
    }
}

#[test]
fn begin_pipeline_run_forgets_the_previous_run() {
    let (mut l, first_run) = started_launcher();
    let second_run = l.begin_pipeline_run(200);
    assert_ne!(first_run, second_run);
    assert_eq!(l.current_pipeline_definition_id, Some(200));
    assert_eq!(l.current_pipeline_run_id, Some(second_run));
    assert!(l.execution_graph.is_none());
    assert!(l.task_states.is_empty());
    assert!(l.task_attempts.is_empty());
}

#[test]
fn first_round_launches_the_first_attempt_of_each_ready_task() {
    let (l, run_id) = started_launcher();
    let info = l.gather_scheduling_info().unwrap().unwrap();
    assert_eq!(info.pipeline_run_id, run_id);
    assert_eq!(
        info.tasks_to_launch,
        vec![
            TaskToLaunch { task_def_id: 1, pipeline_run_id: run_id, attempt: 1 },
            TaskToLaunch { task_def_id: 3, pipeline_run_id: run_id, attempt: 1 },
        ]
    );
    assert!(info.tasks_to_fail.is_empty());
}

#[test]
fn a_task_with_a_watched_worker_is_left_alone() {
    let (mut l, run_id) = started_launcher();
    l.active_workers.push(worker(1));
    assert!(l.is_task_active(1));
    assert!(!l.is_task_active(3));
    let info = l.gather_scheduling_info().unwrap().unwrap();
    assert_eq!(
        info.tasks_to_launch,
        vec![TaskToLaunch { task_def_id: 3, pipeline_run_id: run_id, attempt: 1 }]
    );
    assert!(info.tasks_to_fail.is_empty());
}

#[test]
fn a_retried_task_gets_its_next_attempt_within_its_limit() {
    let (mut l, run_id) = started_launcher();
    l.task_attempts.insert(1, 2);
    let info = l.gather_scheduling_info().unwrap().unwrap();
    assert_eq!(info.tasks_to_launch[0], TaskToLaunch { task_def_id: 1, pipeline_run_id: run_id, attempt: 3 });
}

#[test]
fn a_task_that_used_up_its_attempts_is_failed_not_launched() {
    let (mut l, run_id) = started_launcher();
    // Task 1 may make three attempts (the default), task 3 two.
    l.task_attempts.insert(1, 3);
    l.task_attempts.insert(3, 2);
    let info = l.gather_scheduling_info().unwrap().unwrap();
    assert!(info.tasks_to_launch.is_empty());
    assert_eq!(info.tasks_to_fail.len(), 2);
    let f: &TaskExceedingRetries = &info.tasks_to_fail[0];
    assert_eq!(f.task_def_id, 1);
    assert_eq!(f.pipeline_run_id, run_id);
    assert_eq!(f.completed_attempts, 3);
    assert_eq!(f.max_retries_allowed, 3);
    assert_eq!(f.task_name, "task-1");
    let f = &info.tasks_to_fail[1];
    assert_eq!(f.task_def_id, 3);
    assert_eq!(f.completed_attempts, 2);
    assert_eq!(f.max_retries_allowed, 2);

    let f = TaskExceedingRetries {
        task_def_id: f.task_def_id,
        pipeline_run_id: f.pipeline_run_id,
        completed_attempts: f.completed_attempts,
        max_retries_allowed: f.max_retries_allowed,
        task_name: f.task_name.clone(),
    };
    l.record_retries_exceeded(&f);
    assert_eq!(l.task_states.get(&3), Some(&TaskRunStatus::Failed));
    assert_eq!(l.task_attempts.get(&3), Some(&2));
}

#[test]
fn a_failed_launch_fails_the_task_after_that_attempt() {
    let (mut l, _) = started_launcher();
    l.record_launch_failure(1, 1);
    assert_eq!(l.task_states.get(&1), Some(&TaskRunStatus::Failed));
    assert_eq!(l.task_attempts.get(&1), Some(&1));
    let info = l.gather_scheduling_info().unwrap().unwrap();
    assert_eq!(info.tasks_to_launch.len(), 1);
    assert_eq!(info.tasks_to_launch[0].task_def_id, 3);
}

#[test]
fn task_run_ids_come_from_the_recorded_runs() {
    let (mut l, _) = started_launcher();
    l.run_def_map.insert(1, 1001);
    assert_eq!(l.task_run_id(1).unwrap(), 1001);
    match l.task_run_id(2) {
        Err(Error::Internal(m)) => assert_eq!(
            m,
            format!(
                "Failed to find TaskRun ID for task ID {}. This is a logic error.",
                uuid::Uuid::from_u128(2)
            )
        ),
        _ => panic!("expected an error"),
    }
}

#[test]
fn a_run_completes_once_every_task_settled_and_nothing_is_watched() {
    let (mut l, run_id) = started_launcher();
    assert_eq!(l.completed_run(false), None);
    for id in [1, 2, 3] {
        l.task_states.insert(id, TaskRunStatus::Succeeded);
    }
    assert_eq!(l.completed_run(true), None);
    assert_eq!(l.completed_run(false), Some((run_id, PipelineRunStatus::Succeeded)));
    l.task_states.insert(2, TaskRunStatus::Failed);
    assert_eq!(l.completed_run(false), Some((run_id, PipelineRunStatus::Failed)));
    l.active_workers.push(worker(2));
    assert_eq!(l.completed_run(false), None);
}

#[test]
fn cleanup_keeps_the_launcher_and_its_workers() {
    let (mut l, _) = started_launcher();
    l.active_workers.push(worker(1));
    l.run_def_map.insert(1, 1001);
    l.cleanup_current_pipeline_state();
    assert_eq!(l.id, 9);
    assert!(l.current_pipeline_definition_id.is_none());
    assert!(l.current_pipeline_run_id.is_none());
    assert!(l.execution_graph.is_none());
    assert!(l.task_states.is_empty());
    assert_eq!(l.active_workers.len(), 1);
    assert_eq!(l.run_def_map.get(&1), Some(&1001));
}

#[test]
fn worker_statuses_map_to_task_statuses() {
    let (s, m, t) = LauncherState::map_em_status_to_task_status(ProvisionedWorkerStatus::Succeeded);
    assert_eq!((s, m.as_deref(), t), (TaskStatus::Succeeded, Some("Completed successfully (per EM)"), true));
    let (s, m, t) = LauncherState::map_em_status_to_task_status(ProvisionedWorkerStatus::TimedOut);
    assert_eq!((s, m.as_deref(), t), (TaskStatus::Failed, Some("Timed out (per EM)"), true));
    let (s, m, t) = LauncherState::map_em_status_to_task_status(ProvisionedWorkerStatus::Terminated);
    assert_eq!(
        (s, m.as_deref(), t),
        (TaskStatus::Cancelled, Some("Terminated by EM (interpreted as Cancelled/Failed)"), true)
    );
    let (s, m, t) = LauncherState::map_em_status_to_task_status(ProvisionedWorkerStatus::ErrorState(
        "disk full".to_string(),
    ));
    assert_eq!((s, m.as_deref(), t), (TaskStatus::Failed, Some("EM ErrorState: disk full"), true));
    let (s, m, t) = LauncherState::map_em_status_to_task_status(ProvisionedWorkerStatus::Pending);
    assert_eq!((s, m, t), (TaskStatus::Queued, None, false));
    let (s, m, t) = LauncherState::map_em_status_to_task_status(ProvisionedWorkerStatus::Terminating);
    assert_eq!((s, m.as_deref(), t), (TaskStatus::Running, Some("Terminating (per EM)"), false));
    let (s, m, t) = LauncherState::map_em_status_to_task_status(ProvisionedWorkerStatus::Unknown(None));
    assert_eq!((s, m.as_deref(), t), (TaskStatus::Running, Some("Status unknown from EM"), false));
    let (s, m, t) = LauncherState::map_em_status_to_task_status(ProvisionedWorkerStatus::Unknown(Some(
        "lost".to_string(),
    )));
    assert_eq!((s, m.as_deref(), t), (TaskStatus::Running, Some("lost"), false));
}

#[test]
fn terminal_worker_statuses_settle_their_task() {
    let all = vec![
        ProvisionedWorkerStatus::Pending,
        ProvisionedWorkerStatus::Initializing,
        ProvisionedWorkerStatus::Running,
        ProvisionedWorkerStatus::Succeeded,
        ProvisionedWorkerStatus::Failed,
        ProvisionedWorkerStatus::Cancelled,
        ProvisionedWorkerStatus::TimedOut,
        ProvisionedWorkerStatus::Terminating,
        ProvisionedWorkerStatus::Terminated,
        ProvisionedWorkerStatus::Unknown(None),
        ProvisionedWorkerStatus::ErrorState("x".to_string()),
    ];
    for em in all {
        let terminal = em.is_terminal();
        let (s, _, t) = LauncherState::map_em_status_to_task_status(em);
        assert_eq!(t, terminal);
        let settled = matches!(s, TaskStatus::Succeeded | TaskStatus::Failed | TaskStatus::Cancelled);
        assert_eq!(settled, terminal);
    }
}

#[test]
fn task_run_notes_say_why_the_task_failed() {
    assert_eq!(
        launch_failure_note("Internal Error: No entry point specified"),
        "Launch worker failed: Internal Error: No entry point specified"
    );
    assert_eq!(retries_exceeded_note(3), "Exceeded max retries (3)");
    assert_eq!(retries_exceeded_note(0), "Exceeded max retries (0)");
    assert_eq!(retries_exceeded_note(-2), "Exceeded max retries (-2)");
    assert_eq!(retries_exceeded_note(i32::MIN), "Exceeded max retries (-2147483648)");
}
