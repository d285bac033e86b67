use std::collections::HashMap;

use iodine::error::Error;
use iodine::local_process::{
    cancel_after_kill, cancel_after_signal, cancel_first_step, create_local_worker_request,
    fetch_log_tail, local_process_command, local_worker_details, monitor_outcome,
    observed_status, untracked_status, worker_not_found, CancelStep, MonitorEvent,
};
use iodine::resource_manager::ProvisionedWorkerStatus;
use iodine::task::{ExecutionContext, ExecutionContextKind, LocalProcessExecutionContext, TimeSpan};

fn context(entry_point: &[&str], args: &[&str]) -> ExecutionContext {
    ExecutionContext::LocalProcess(LocalProcessExecutionContext {
        entry_point: entry_point.iter().map(|s| s.to_string()).collect(),
        args: args.iter().map(|s| s.to_string()).collect(),
        env_vars: HashMap::new(),
        exec_timeout: None,
    })
}

#[test]
fn the_command_line_is_the_entry_point_then_the_arguments() {
    let (program, args) = local_process_command(&context(&["python", "-u"], &["job.py", "--x"])).unwrap();
    assert_eq!(program, "python");
    assert_eq!(args, vec!["-u", "job.py", "--x"]);
    let (program, args) = local_process_command(&context(&["true"], &[])).unwrap();
    assert_eq!(program, "true");
    assert!(args.is_empty());
}

#[test]
fn an_empty_entry_point_is_refused() {
    match local_process_command(&context(&[], &["a"])) {
        Err(Error::Internal(m)) => assert_eq!(m, "No entry point specified"),
        _ => panic!("expected a refusal"),
    }
}

#[test]
fn details_name_the_process() {
    let d = local_worker_details(5, 4242, 6);
    assert_eq!(d.worker_id, 5);
    assert_eq!(d.platform_id, "local_process_4242");
    assert_eq!(d.manager_id, 6);
    assert_eq!(d.resource_type_provisioned, ExecutionContextKind::LocalProcess);
    assert_eq!(local_worker_details(5, 0, 6).platform_id, "local_process_0");
}

#[test]
fn log_tails_keep_the_last_lines() {
    let log: Vec<String> = vec!["a".into(), "b".into(), "c".into()];
    assert_eq!(fetch_log_tail(&log, Some(2)), vec!["b", "c"]);
    assert_eq!(fetch_log_tail(&log, Some(0)), Vec::<String>::new());
    assert_eq!(fetch_log_tail(&log, Some(10)), vec!["a", "b", "c"]);
    assert_eq!(fetch_log_tail(&log, None), vec!["a", "b", "c"]);
}

#[test]
fn a_limit_below_a_second_is_kept_to_the_nanosecond() {
    let half = Some(TimeSpan { secs: 0, nanos: 500_000_000 });
    let s = observed_status(&ProvisionedWorkerStatus::Running, half, 500_000_001);
    assert!(matches!(s, ProvisionedWorkerStatus::TimedOut));
    let s = observed_status(&ProvisionedWorkerStatus::Running, half, 500_000_000);
    assert!(matches!(s, ProvisionedWorkerStatus::Running));
    let s = observed_status(&ProvisionedWorkerStatus::Running, Some(TimeSpan { secs: 2, nanos: 250 }), 2_000_000_251);
    assert!(matches!(s, ProvisionedWorkerStatus::TimedOut));
}

#[test]
fn a_running_worker_past_its_limit_has_timed_out() {
    let s = observed_status(&ProvisionedWorkerStatus::Running, Some(TimeSpan::from_secs(3)), 3_000_000_001);
    assert!(matches!(s, ProvisionedWorkerStatus::TimedOut));
    let s = observed_status(&ProvisionedWorkerStatus::Running, Some(TimeSpan::from_secs(3)), 3_000_000_000);
    assert!(matches!(s, ProvisionedWorkerStatus::Running));
    let s = observed_status(&ProvisionedWorkerStatus::Running, None, u128::MAX);
    assert!(matches!(s, ProvisionedWorkerStatus::Running));
    let s = observed_status(&ProvisionedWorkerStatus::Succeeded, Some(TimeSpan::from_secs(1)), 9_000_000_000);
    assert!(matches!(s, ProvisionedWorkerStatus::Succeeded));
    let s = observed_status(&ProvisionedWorkerStatus::ErrorState("e".into()), Some(TimeSpan::from_secs(1)), 9_000_000_000);
    assert!(matches!(s, ProvisionedWorkerStatus::ErrorState(m) if m == "e"));
}

#[test]
fn untracked_workers_have_an_unknown_status() {
    match untracked_status() {
        ProvisionedWorkerStatus::Unknown(Some(m)) => {
            assert_eq!(m, "Process not actively tracked or already cleaned up.")
        }
        _ => panic!("expected unknown"),
    }
}

#[test]
fn worker_not_found_names_the_worker_and_the_purpose() {
    match worker_not_found(1, "teardown") {
        Error::Internal(m) => assert_eq!(
            m,
            "Worker 00000000-0000-0000-0000-000000000001 not found for teardown."
        ),
        _ => panic!("expected an internal error"),
    }
}

#[test]
fn the_watch_records_how_the_process_ended() {
    let (s, m) = monitor_outcome(MonitorEvent::CancelRequested);
    assert!(matches!(s, ProvisionedWorkerStatus::Cancelled));
    assert_eq!(m.as_deref(), Some("Cancelled"));
    let (s, m) = monitor_outcome(MonitorEvent::Exited { success: true, exit_status: "exit status: 0".into() });
    assert!(matches!(s, ProvisionedWorkerStatus::Succeeded));
    assert_eq!(m.as_deref(), Some("Process exited with status: exit status: 0"));
    let (s, _) = monitor_outcome(MonitorEvent::Exited { success: false, exit_status: "exit status: 123".into() });
    assert!(matches!(s, ProvisionedWorkerStatus::Failed));
    let (s, m) = monitor_outcome(MonitorEvent::WaitFailed { error: "gone".into() });
    assert!(matches!(s, ProvisionedWorkerStatus::ErrorState(e) if e == "Error waiting for process exit: gone"));
    assert_eq!(m.as_deref(), Some("Error waiting for process exit: gone"));
    let (s, m) = monitor_outcome(MonitorEvent::TimeLimitReached { limit: "3s".into() });
    assert!(matches!(s, ProvisionedWorkerStatus::TimedOut));
    assert_eq!(m.as_deref(), Some("Execution timed out after 3s"));
}

#[test]
fn cancelling_signals_first_then_kills_a_live_process() {
    assert_eq!(cancel_first_step(true), CancelStep::SendSignal);
    assert_eq!(cancel_first_step(false), CancelStep::AlreadyStopping);
    assert_eq!(cancel_after_signal(true, &ProvisionedWorkerStatus::Running), CancelStep::MarkTerminating);
    assert_eq!(cancel_after_signal(false, &ProvisionedWorkerStatus::Succeeded), CancelStep::NothingToStop);
    assert_eq!(cancel_after_signal(false, &ProvisionedWorkerStatus::Running), CancelStep::KillProcess);
    assert_eq!(cancel_after_signal(false, &ProvisionedWorkerStatus::TimedOut), CancelStep::KillProcess);
    assert!(matches!(cancel_after_kill(3, true), Ok(ProvisionedWorkerStatus::Terminating)));
    match cancel_after_kill(3, false) {
        Err(Error::Internal(m)) => assert_eq!(
            m,
            "Failed to send cancel signal for worker 00000000-0000-0000-0000-000000000003"
        ),
        _ => panic!("expected a failure"),
    }
}

#[test]
fn worker_requests_run_a_shell_script() {
    let r = create_local_worker_request(8, "echo hi && exit 0", Some(5));
    assert_eq!(r.worker_id, 8);
    let ExecutionContext::LocalProcess(c) = r.execution_context;
    assert_eq!(c.entry_point, vec!["sh"]);
    assert_eq!(c.args, vec!["-c", "echo hi && exit 0"]);
    assert!(c.env_vars.is_empty());
    assert_eq!(c.exec_timeout, Some(TimeSpan { secs: 5, nanos: 0 }));
    let r2 = create_local_worker_request(8, "true", None);
    let ExecutionContext::LocalProcess(c2) = r2.execution_context;
    assert_eq!(c2.exec_timeout, None);
    assert_ne!(r.pipeline_id, r2.pipeline_id);
}
