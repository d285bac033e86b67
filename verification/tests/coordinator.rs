use iodine::coordinator::{
    admit_submission, definition_to_assign, submission_failure, teardown_outcome,
    CoordinatorConfig, LauncherTable, ManagedLauncher,
};
use iodine::error::Error;
use iodine::pipeline::{PipelineDefinition, PipelineInfo, UtcTimestamp};
use iodine::status::PipelineBackend;

#[test]
fn the_table_admits_launchers_up_to_the_limit() {
    let config = CoordinatorConfig { max_launchers: 2 };
    let mut t = LauncherTable::new();
    assert!(t.can_admit(&config));
    assert!(admit_submission(&t, &config).is_ok());
    t.add_launcher(1);
    assert!(admit_submission(&t, &config).is_ok());
    t.add_launcher(2);
    assert_eq!(t.len(), 2);
    assert!(!t.can_admit(&config));
    match admit_submission(&t, &config) {
        Err(Error::Internal(m)) => assert_eq!(m, "Max launchers reached"),
        _ => panic!("expected a refusal"),
    }
    assert_eq!(
        t.remove_launcher(1),
        Some(ManagedLauncher { id: 1, current_pipeline_id: None, current_run_id: None })
    );
    assert!(admit_submission(&t, &config).is_ok());
}

#[test]
fn a_launcher_is_assigned_its_pipeline() {
    let mut t = LauncherTable::new();
    t.add_launcher(10);
    assert!(t.assign_pipeline(10, 500).is_ok());
    assert_eq!(
        t.remove_launcher(10),
        Some(ManagedLauncher { id: 10, current_pipeline_id: Some(500), current_run_id: None })
    );
    assert_eq!(t.remove_launcher(10), None);
}

#[test]
fn assigning_to_an_unknown_launcher_is_not_found() {
    let mut t = LauncherTable::new();
    match t.assign_pipeline(11, 500) {
        Err(Error::NotFound { resource_type, resource_id }) => {
            assert_eq!(resource_type, "ManagedLauncher");
            assert_eq!(resource_id, uuid::Uuid::from_u128(11).to_string());
        }
        _ => panic!("expected not found"),
    }
}

#[test]
fn the_table_lists_every_launcher_once() {
    let mut t = LauncherTable::new();
    t.add_launcher(3);
    t.add_launcher(1);
    t.add_launcher(2);
    let mut ids = t.launcher_ids();
    ids.sort();
    assert_eq!(ids, vec![1, 2, 3]);
}

#[test]
fn teardown_fails_when_some_launcher_did_not_acknowledge() {
    assert!(teardown_outcome(&vec![]).is_ok());
    match teardown_outcome(&vec![4, 5, 6]) {
        Err(Error::Internal(m)) => assert_eq!(m, "Failed to terminate 3 launchers"),
        _ => panic!("expected a failure"),
    }
}

#[test]
fn a_missing_definition_is_not_found() {
    match definition_to_assign(None, 0x99) {
        Err(Error::NotFound { resource_type, resource_id }) => {
            assert_eq!(resource_type, "PipelineDefinition");
            assert_eq!(resource_id, "00000000-0000-0000-0000-000000000099");
        }
        _ => panic!("expected not found"),
    }
    let d = PipelineDefinition {
        info: PipelineInfo {
            id: 0x99,
            name: "n".to_string(),
            description: String::new(),
            default_backend: PipelineBackend::Local,
            default_tags: None,
            metadata: None,
            created_at: UtcTimestamp { unix_nanos: 1 },
            updated_at: UtcTimestamp { unix_nanos: 2 },
        },
        task_definitions: vec![],
    };
    let found = definition_to_assign(Some(d), 0x99);
    assert_eq!(found.map(|d| d.info.name).ok(), Some("n".to_string()));
}

#[test]
fn a_failed_spawn_answers_with_its_text() {
    match submission_failure(Error::Database("down".to_string())) {
        Error::Internal(m) => assert_eq!(m, "Database Error: down"),
        _ => panic!("expected an internal error"),
    }
    match submission_failure(Error::NotFound {
        resource_type: "ManagedLauncher".to_string(),
        resource_id: "x".to_string(),
    }) {
        Error::Internal(m) => assert_eq!(m, "Resource Not Found: ManagedLauncher with ID x"),
        _ => panic!("expected an internal error"),
    }
}
