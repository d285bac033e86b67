use std::collections::HashMap;

use iodine::error::Error;
use iodine::execution_graph::PipelineExecutionGraph;
use iodine::pipeline::{PipelineDefinition, PipelineInfo, UtcTimestamp};
use iodine::status::{PipelineBackend, PipelineRunStatus, TaskRunStatus};
use iodine::task::{ExecutionContext, LocalProcessExecutionContext, TaskDefinition};

fn uuid_text(x: u128) -> String {
    uuid::Uuid::from_u128(x).to_string()
}

fn task(id: u128, deps: Vec<u128>) -> TaskDefinition {
    TaskDefinition {
        id,
        pipeline_def_id: 7,
        name: format!("task-{}", id),
        description: None,
        execution_ctx: ExecutionContext::LocalProcess(LocalProcessExecutionContext {
            entry_point: vec!["true".to_string()],
            args: vec![],
            env_vars: HashMap::new(),
            exec_timeout: None,
        }),
        max_attempts: None,
        depends_on: deps,
    }
}

fn pipeline(id: u128, tasks: Vec<TaskDefinition>) -> PipelineDefinition {
    PipelineDefinition {
        info: PipelineInfo {
            id,
            name: "p".to_string(),
            description: String::new(),
            default_backend: PipelineBackend::Local,
            default_tags: None,
            metadata: None,
            created_at: UtcTimestamp { unix_nanos: 0 },
            updated_at: UtcTimestamp { unix_nanos: 0 },
        },
        task_definitions: tasks,
    }
}

fn states(pairs: &[(u128, TaskRunStatus)]) -> HashMap<u128, TaskRunStatus> {
    pairs.iter().cloned().collect()
}

fn diamond() -> PipelineExecutionGraph {
    // 1 -> 2, 1 -> 3, (2, 3) -> 4
    PipelineExecutionGraph::new(pipeline(
        100,
        vec![task(1, vec![]), task(2, vec![1]), task(3, vec![1]), task(4, vec![2, 3])],
    ))
    .unwrap()
}

#[test]
fn graph_lists_its_tasks_in_definition_order() {
    let g = diamond();
    assert_eq!(g.get_all_task_ids(), vec![1, 2, 3, 4]);
    assert_eq!(g.get_task_definition(3).unwrap().name, "task-3");
    assert!(g.get_task_definition(9).is_none());
}

#[test]
fn sources_are_the_tasks_without_dependencies() {
    let g = diamond();
    let sources = g.get_source_task_ids();
    assert_eq!(sources.len(), 1);
    assert!(sources.contains(&1));
}

#[test]
fn only_pending_sources_are_ready_at_first() {
    let g = diamond();
    let s = states(&[
        (1, TaskRunStatus::Pending),
        (2, TaskRunStatus::Pending),
        (3, TaskRunStatus::Pending),
        (4, TaskRunStatus::Pending),
    ]);
    assert_eq!(g.get_ready_tasks(&s), vec![1]);
}

#[test]
fn a_task_is_ready_once_all_its_dependencies_succeeded() {
    let g = diamond();
    let s = states(&[
        (1, TaskRunStatus::Succeeded),
        (2, TaskRunStatus::Succeeded),
        (3, TaskRunStatus::Running),
        (4, TaskRunStatus::Pending),
    ]);
    assert_eq!(g.get_ready_tasks(&s), Vec::<u128>::new());
    let s = states(&[
        (1, TaskRunStatus::Succeeded),
        (2, TaskRunStatus::Pending),
        (3, TaskRunStatus::Pending),
        (4, TaskRunStatus::Pending),
    ]);
    assert_eq!(g.get_ready_tasks(&s), vec![2, 3]);
    let s = states(&[
        (1, TaskRunStatus::Succeeded),
        (2, TaskRunStatus::Succeeded),
        (3, TaskRunStatus::Succeeded),
        (4, TaskRunStatus::Pending),
    ]);
    assert_eq!(g.get_ready_tasks(&s), vec![4]);
}

#[test]
fn a_task_without_a_status_is_not_ready() {
    let g = diamond();
    assert_eq!(g.get_ready_tasks(&HashMap::new()), Vec::<u128>::new());
}

#[test]
fn a_failed_dependency_blocks_its_dependents() {
    let g = diamond();
    let s = states(&[
        (1, TaskRunStatus::Failed),
        (2, TaskRunStatus::Pending),
        (3, TaskRunStatus::Pending),
        (4, TaskRunStatus::Pending),
    ]);
    assert_eq!(g.get_ready_tasks(&s), Vec::<u128>::new());
}

#[test]
fn run_is_complete_only_when_every_task_settled() {
    let g = diamond();
    let s = states(&[
        (1, TaskRunStatus::Succeeded),
        (2, TaskRunStatus::Succeeded),
        (3, TaskRunStatus::Succeeded),
        (4, TaskRunStatus::Running),
    ]);
    assert_eq!(g.is_pipeline_complete(&s), None);
    let s = states(&[
        (1, TaskRunStatus::Succeeded),
        (2, TaskRunStatus::Succeeded),
        (3, TaskRunStatus::Succeeded),
    ]);
    assert_eq!(g.is_pipeline_complete(&s), None);
    let s = states(&[
        (1, TaskRunStatus::Succeeded),
        (2, TaskRunStatus::Succeeded),
        (3, TaskRunStatus::Succeeded),
        (4, TaskRunStatus::Succeeded),
    ]);
    assert_eq!(g.is_pipeline_complete(&s), Some(PipelineRunStatus::Succeeded));
}

#[test]
fn a_settled_run_with_an_unsuccessful_task_failed() {
    let g = diamond();
    for bad in [TaskRunStatus::Failed, TaskRunStatus::Cancelled, TaskRunStatus::Skipped] {
        let s = states(&[
            (1, TaskRunStatus::Succeeded),
            (2, bad),
            (3, TaskRunStatus::Succeeded),
            (4, TaskRunStatus::Skipped),
        ]);
        assert_eq!(g.is_pipeline_complete(&s), Some(PipelineRunStatus::Failed));
    }
}

#[test]
fn an_empty_pipeline_is_complete() {
    let g = PipelineExecutionGraph::new(pipeline(5, vec![])).unwrap();
    assert_eq!(g.get_all_task_ids(), Vec::<u128>::new());
    assert!(g.get_source_task_ids().is_empty());
    assert_eq!(g.is_pipeline_complete(&HashMap::new()), Some(PipelineRunStatus::Succeeded));
}

#[test]
fn duplicate_task_ids_are_a_conflict() {
    let r = PipelineExecutionGraph::new(pipeline(
        0xabc,
        vec![task(1, vec![]), task(2, vec![1]), task(1, vec![])],
    ));
    match r {
        Err(Error::Conflict(m)) => assert_eq!(
            m,
            format!(
                "Duplicate task ID {} found in pipeline definition {}.",
                uuid_text(1),
                uuid_text(0xabc)
            )
        ),
        _ => panic!("expected a conflict"),
    }
}

#[test]
fn a_dependency_on_an_unknown_task_is_an_internal_error() {
    let r = PipelineExecutionGraph::new(pipeline(0xdef, vec![task(1, vec![]), task(2, vec![1, 9])]));
    match r {
        Err(Error::Internal(m)) => assert_eq!(
            m,
            format!(
                "Failed to find task ID {} in task_id_to_node_idx for pipeline definition {}.",
                uuid_text(9),
                uuid_text(0xdef)
            )
        ),
        _ => panic!("expected an internal error"),
    }
}

#[test]
fn a_dependency_may_be_listed_after_its_dependent() {
    let g = PipelineExecutionGraph::new(pipeline(0x77, vec![task(1, vec![2]), task(2, vec![])]))
        .unwrap();
    let sources = g.get_source_task_ids();
    assert_eq!(sources.len(), 1);
    assert!(sources.contains(&2));
    let s = states(&[(1, TaskRunStatus::Pending), (2, TaskRunStatus::Pending)]);
    assert_eq!(g.get_ready_tasks(&s), vec![2]);
    let s = states(&[(1, TaskRunStatus::Pending), (2, TaskRunStatus::Succeeded)]);
    assert_eq!(g.get_ready_tasks(&s), vec![1]);
}

#[test]
fn a_repeated_id_is_reported_before_an_unknown_dependency() {
    let r = PipelineExecutionGraph::new(pipeline(
        0x88,
        vec![task(1, vec![9]), task(2, vec![]), task(2, vec![])],
    ));
    match r {
        Err(Error::Conflict(m)) => assert_eq!(
            m,
            format!(
                "Duplicate task ID {} found in pipeline definition {}.",
                uuid_text(2),
                uuid_text(0x88)
            )
        ),
        _ => panic!("expected a conflict"),
    }
}

#[test]
fn tasks_depending_on_each_other_are_a_cycle() {
    let r = PipelineExecutionGraph::new(pipeline(
        0x43,
        vec![task(1, vec![3]), task(2, vec![1]), task(3, vec![2])],
    ));
    match r {
        Err(Error::Conflict(m)) => assert_eq!(
            m,
            format!(
                "Cyclic dependency graph detected for pipeline definition {}.",
                uuid_text(0x43)
            )
        ),
        _ => panic!("expected a cycle"),
    }
}

#[test]
fn a_task_depending_on_itself_is_a_cycle() {
    let r = PipelineExecutionGraph::new(pipeline(0x42, vec![task(1, vec![]), task(2, vec![2])]));
    match r {
        Err(Error::Conflict(m)) => assert_eq!(
            m,
            format!(
                "Cyclic dependency graph detected for pipeline definition {}.",
                uuid_text(0x42)
            )
        ),
        _ => panic!("expected a cycle"),
    }
}
