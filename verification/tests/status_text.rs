use iodine::status::{
    CoordinatorStatus, EventSeverity, EventType, PipelineBackend, PipelineRunBackend,
    PipelineRunStatus, TaskRunStatus, TaskStatus,
};

#[test]
fn test_from_str() {
    let s = "RunStart";
    let e = EventType::from_str(s).unwrap();
    assert_eq!(e, EventType::RunStart);
}

#[test]
fn test_to_string() {
    let s = "RunStart";
    let e = EventType::from_str(s).unwrap();
    assert_eq!(e.to_string(), s);
}

#[test]
fn event_type_also_reads_screaming_snake_case() {
    assert_eq!(EventType::from_str("RUN_START").unwrap(), EventType::RunStart);
    assert_eq!(
        EventType::from_str("TASK_EXPECTATION_RESULT").unwrap(),
        EventType::TaskExpectationResult
    );
    assert_eq!(
        EventType::from_str("EngineInitFailure").unwrap(),
        EventType::EngineInitFailure
    );
}

#[test]
fn event_type_rejects_unknown_text() {
    assert!(EventType::from_str("run_start").is_err());
    assert!(EventType::from_str("").is_err());
    assert!(EventType::from_str("RunStarted").is_err());
}

#[test]
fn event_type_round_trips_through_its_text() {
    let all = [
        EventType::DefinitionRegistered,
        EventType::DefinitionUpdated,
        EventType::DefinitionDeregistered,
        EventType::RunEnqueued,
        EventType::RunDequeued,
        EventType::RunStarting,
        EventType::RunStart,
        EventType::RunSuccess,
        EventType::RunFailure,
        EventType::RunCanceling,
        EventType::RunCanceled,
        EventType::TaskPending,
        EventType::TaskQueued,
        EventType::TaskStart,
        EventType::TaskSuccess,
        EventType::TaskFailure,
        EventType::TaskSkipped,
        EventType::TaskCancelled,
        EventType::TaskReadyToRetry,
        EventType::TaskInput,
        EventType::TaskOutput,
        EventType::TaskExpectationResult,
        EventType::EngineEvent,
        EventType::EngineInitFailure,
    ];
    for e in all {
        assert_eq!(EventType::from_str(&e.to_string()).unwrap(), e);
    }
}

#[test]
fn statuses_display_in_upper_case() {
    assert_eq!(CoordinatorStatus::Terminating.to_string(), "TERMINATING");
    assert_eq!(EventSeverity::Warn.to_string(), "WARN");
    assert_eq!(PipelineBackend::Docker.to_string(), "DOCKER");
    assert_eq!(PipelineRunStatus::Cancelling.to_string(), "CANCELLING");
    assert_eq!(PipelineRunBackend::Local.to_string(), "LOCAL");
    assert_eq!(TaskStatus::Retrying.to_string(), "RETRYING");
    assert_eq!(TaskRunStatus::Skipped.to_string(), "SKIPPED");
}

#[test]
fn statuses_parse_their_upper_case_names_only() {
    assert_eq!(CoordinatorStatus::from_str("RUNNING").unwrap(), CoordinatorStatus::Running);
    assert!(CoordinatorStatus::from_str("Running").is_err());
    assert_eq!(EventSeverity::from_str("FATAL").unwrap(), EventSeverity::Fatal);
    assert_eq!(PipelineRunStatus::from_str("QUEUED").unwrap(), PipelineRunStatus::Queued);
    assert_eq!(TaskStatus::from_str("SKIPPED").unwrap(), TaskStatus::Skipped);
    assert_eq!(TaskRunStatus::from_str("CANCELLED").unwrap(), TaskRunStatus::Cancelled);
    assert!(TaskRunStatus::from_str("CANCELED").is_err());
    assert_eq!(PipelineRunBackend::from_str("DOCKER").unwrap(), PipelineRunBackend::Docker);
}

#[test]
fn status_texts_round_trip() {
    for s in [
        TaskStatus::Pending,
        TaskStatus::Queued,
        TaskStatus::Running,
        TaskStatus::Retrying,
        TaskStatus::Succeeded,
        TaskStatus::Failed,
        TaskStatus::Cancelling,
        TaskStatus::Cancelled,
        TaskStatus::Skipped,
    ] {
        assert_eq!(TaskStatus::from_str(&s.to_string()).unwrap(), s);
    }
    for s in [
        PipelineRunStatus::Pending,
        PipelineRunStatus::Queued,
        PipelineRunStatus::Running,
        PipelineRunStatus::Succeeded,
        PipelineRunStatus::Failed,
        PipelineRunStatus::Cancelling,
        PipelineRunStatus::Cancelled,
    ] {
        assert_eq!(PipelineRunStatus::from_str(&s.to_string()).unwrap(), s);
    }
}

#[test]
fn pipeline_backend_defaults_to_local() {
    assert_eq!(PipelineBackend::default(), PipelineBackend::Local);
}
