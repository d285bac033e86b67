//! The decisions of the execution manager that runs workers as local
//! processes: the command line it starts, the status it reports, the log
//! lines it returns and how it cancels a worker. Spawning, waiting, killing
//! and reading pipes are the caller's part.

use vstd::prelude::*;

use crate::error::Error;
use std::collections::HashMap;

use crate::ids::{hyphenated_text, uuid_new_v4, uuid_string};
use crate::resource_manager::{ProvisionedWorkerDetails, ProvisionedWorkerStatus, WorkerRequest};
use crate::task::{ExecutionContext, ExecutionContextKind, LocalProcessExecutionContext, TimeSpan};
use crate::text::{decimal_string, decimal_text};

verus! {

/// A request for worker `worker_id` that runs `command_script` with `sh -c`,
/// with an empty environment and the given time limit. The pipeline and run
/// ids are fresh random ones; nothing is stated of them.
pub fn create_local_worker_request(
    worker_id: u128,
    command_script: &str,
    timeout_seconds: Option<u64>,
) -> (r: WorkerRequest)
    ensures
        r.worker_id == worker_id,
        r.execution_context matches ExecutionContext::LocalProcess(c) && c.entry_point@.len() == 1
            && c.entry_point@[0]@ == "sh"@ && c.args@.len() == 2 && c.args@[0]@ == "-c"@
            && c.args@[1]@ == command_script@ && c.env_vars@ == Map::<String, String>::empty()
            && c.exec_timeout == match timeout_seconds {
                Some(s) => Some(TimeSpan { secs: s, nanos: 0 }),
                None => None::<TimeSpan>,
            },
{
    let entry_point = vec![String::from_str("sh")];
    let args = vec![String::from_str("-c"), String::from_str(command_script)];
    WorkerRequest {
        pipeline_id: uuid_new_v4(),
        run_id: uuid_new_v4(),
        worker_id,
        execution_context: ExecutionContext::LocalProcess(
            LocalProcessExecutionContext {
                entry_point,
                args,
                env_vars: HashMap::new(),
                exec_timeout: match timeout_seconds {
                    Some(s) => Some(TimeSpan::from_secs(s)),
                    None => None,
                },
            },
        ),
    }
}

/// The message of the error for a worker that the manager does not track.
pub open spec fn worker_not_found_message(worker_id: u128, purpose: Seq<char>) -> Seq<char> {
    "Worker "@ + hyphenated_text(worker_id) + " not found for "@ + purpose + "."@
}

/// The error for a worker that the manager does not track, reported for
/// the given purpose (`fetch_logs`, `cancellation` or `teardown`).
pub fn worker_not_found(worker_id: u128, purpose: &str) -> (e: Error)
    ensures
        e matches Error::Internal(m) && m@ == worker_not_found_message(worker_id, purpose@),
{
    let m = "Worker ".to_owned();
    let m = m.concat(uuid_string(worker_id).as_str());
    let m = m.concat(" not found for ");
    let m = m.concat(purpose);
    let m = m.concat(".");
    Error::Internal(m)
}

/// The last `tail_lines` lines of the log (all when there are fewer, or
/// when no number is given).
pub open spec fn log_tail(lines: Seq<String>, tail_lines: Option<usize>) -> Seq<String> {
    match tail_lines {
        Some(n) => if n >= lines.len() {
            lines
        } else {
            lines.subrange(lines.len() - n, lines.len() as int)
        },
        None => lines,
    }
}

/// The lines of a worker's log to return: the last `tail_lines` of them,
/// or all of them.
pub fn fetch_log_tail(log_buffer: &Vec<String>, tail_lines: Option<usize>) -> (r: Vec<String>)
    ensures
        r@ == log_tail(log_buffer@, tail_lines),
{
    let log_len = log_buffer.len();
    let start_idx: usize = match tail_lines {
        Some(n) => if n >= log_len {
            0
        } else {
            log_len - n
        },
        None => 0,
    };
    let mut r: Vec<String> = Vec::new();
    let mut i = start_idx;
    while i < log_len
        invariant
            log_len == log_buffer@.len(),
            start_idx <= i <= log_len,
            r@ == log_buffer@.subrange(start_idx as int, i as int),
        decreases log_len - i,
    {
        r.push(log_buffer[i].clone());
        proof {
            assert(r@ =~= log_buffer@.subrange(start_idx as int, i + 1));
        }
        i += 1;
    }
    proof {
        assert(log_buffer@.subrange(0, log_len as int) =~= log_buffer@);
    }
    r
}

/// A copy of a worker status.
pub fn clone_status(s: &ProvisionedWorkerStatus) -> (r: ProvisionedWorkerStatus)
    ensures
        r == *s,
{
    match s {
        ProvisionedWorkerStatus::Pending => ProvisionedWorkerStatus::Pending,
        ProvisionedWorkerStatus::Initializing => ProvisionedWorkerStatus::Initializing,
        ProvisionedWorkerStatus::Running => ProvisionedWorkerStatus::Running,
        ProvisionedWorkerStatus::Succeeded => ProvisionedWorkerStatus::Succeeded,
        ProvisionedWorkerStatus::Failed => ProvisionedWorkerStatus::Failed,
        ProvisionedWorkerStatus::Cancelled => ProvisionedWorkerStatus::Cancelled,
        ProvisionedWorkerStatus::TimedOut => ProvisionedWorkerStatus::TimedOut,
        ProvisionedWorkerStatus::Terminating => ProvisionedWorkerStatus::Terminating,
        ProvisionedWorkerStatus::Terminated => ProvisionedWorkerStatus::Terminated,
        ProvisionedWorkerStatus::Unknown(m) => ProvisionedWorkerStatus::Unknown(
            match m {
                Some(m) => Some(m.clone()),
                None => None,
            },
        ),
        ProvisionedWorkerStatus::ErrorState(m) => ProvisionedWorkerStatus::ErrorState(m.clone()),
    }
}

/// Whether a worker has outrun its time limit: it has one, and more time
/// than that has passed since it started.
pub open spec fn has_timed_out(exec_timeout: Option<TimeSpan>, elapsed_nanos: u128) -> bool {
    match exec_timeout {
        Some(t) => elapsed_nanos > t.total_nanos(),
        None => false,
    }
}

/// The status to report for a tracked worker: `TimedOut` when it has not
/// stopped yet but has outrun its time limit, its recorded status otherwise.
pub fn observed_status(
    status: &ProvisionedWorkerStatus,
    exec_timeout: Option<TimeSpan>,
    elapsed_nanos: u128,
) -> (r: ProvisionedWorkerStatus)
    ensures
        r == if !status.spec_is_terminal() && has_timed_out(exec_timeout, elapsed_nanos) {
            ProvisionedWorkerStatus::TimedOut
        } else {
            *status
        },
{
    if !status.is_terminal() {
        if let Some(timeout) = exec_timeout {
            let limit: u128 = timeout.secs as u128 * 1_000_000_000 + timeout.nanos as u128;
            if elapsed_nanos > limit {
                return ProvisionedWorkerStatus::TimedOut;
            }
        }
    }
    clone_status(status)
}

/// The status reported for a worker that the manager does not track.
pub open spec fn untracked_status_message() -> Seq<char> {
    "Process not actively tracked or already cleaned up."@
}

/// The status reported for a worker that the manager does not track.
pub fn untracked_status() -> (r: ProvisionedWorkerStatus)
    ensures
        r matches ProvisionedWorkerStatus::Unknown(Some(m)) && m@ == untracked_status_message(),
{
    ProvisionedWorkerStatus::Unknown(Some("Process not actively tracked or already cleaned up.".to_owned()))
}

/// The command line of a local worker: the program and all its arguments,
/// those that follow it in the entry point and then the configured ones.
/// Fails when the entry point is empty.
pub fn local_process_command(execution_context: &ExecutionContext) -> (r: Result<
    (String, Vec<String>),
    Error,
>)
    ensures
        match execution_context {
            ExecutionContext::LocalProcess(config) => match r {
                Ok((program, args)) => config.entry_point@.len() > 0 && program
                    == config.entry_point@[0] && args@ == config.entry_point@.drop_first()
                    + config.args@,
                Err(e) => config.entry_point@.len() == 0 && (e matches Error::Internal(m) && m@
                    == "No entry point specified"@),
            },
        },
{
    match execution_context {
        ExecutionContext::LocalProcess(config) => {
            if config.entry_point.len() == 0 {
                return Err(Error::Internal("No entry point specified".to_owned()));
            }
            let program = config.entry_point[0].clone();
            let mut args: Vec<String> = Vec::new();
            let mut i: usize = 1;
            while i < config.entry_point.len()
                invariant
                    1 <= i <= config.entry_point@.len(),
                    args@ == config.entry_point@.subrange(1, i as int),
                decreases config.entry_point@.len() - i,
            {
                args.push(config.entry_point[i].clone());
                proof {
                    assert(args@ =~= config.entry_point@.subrange(1, i + 1));
                }
                i += 1;
            }
            let mut j: usize = 0;
            while j < config.args.len()
                invariant
                    0 <= j <= config.args@.len(),
                    args@ == config.entry_point@.drop_first() + config.args@.take(j as int),
                decreases config.args@.len() - j,
            {
                args.push(config.args[j].clone());
                proof {
                    assert(args@ =~= config.entry_point@.drop_first() + config.args@.take(j + 1));
                }
                j += 1;
            }
            proof {
                assert(config.args@.take(config.args@.len() as int) =~= config.args@);
            }
            Ok((program, args))
        },
    }
}

/// The platform name of a local worker: `local_process_` and its process id.
pub open spec fn platform_id_text(pid: u32) -> Seq<char> {
    "local_process_"@ + decimal_text(pid as nat)
}

/// What the manager reports of a local worker it started as process `pid`.
pub fn local_worker_details(worker_id: u128, pid: u32, manager_id: u128) -> (d:
    ProvisionedWorkerDetails)
    ensures
        d.worker_id == worker_id,
        d.platform_id@ == platform_id_text(pid),
        d.manager_id == manager_id,
        d.resource_type_provisioned == ExecutionContextKind::LocalProcess,
{
    let platform_id = "local_process_".to_owned().concat(decimal_string(pid as u64).as_str());
    ProvisionedWorkerDetails {
        worker_id,
        platform_id,
        manager_id,
        resource_type_provisioned: ExecutionContextKind::LocalProcess,
    }
}

/// What ended the watch over a local worker.
pub enum MonitorEvent {
    /// A cancellation was asked for (the process was then killed).
    CancelRequested,
    /// The process exited; `success` tells whether its exit status is a
    /// success, `exit_status` is that status as text.
    Exited { success: bool, exit_status: String },
    /// Waiting for the process failed with the given error text.
    WaitFailed { error: String },
    /// The time limit ran out; `limit` is the limit as text.
    TimeLimitReached { limit: String },
}

/// The final status of a watched worker and the message recorded with it.
pub fn monitor_outcome(event: MonitorEvent) -> (r: (ProvisionedWorkerStatus, Option<String>))
    ensures
        match event {
            MonitorEvent::CancelRequested => r.0 == ProvisionedWorkerStatus::Cancelled && (r.1 matches Some(
                m,
            ) && m@ == "Cancelled"@),
            MonitorEvent::Exited { success, exit_status } => r.0 == (if success {
                ProvisionedWorkerStatus::Succeeded
            } else {
                ProvisionedWorkerStatus::Failed
            }) && (r.1 matches Some(m) && m@ == "Process exited with status: "@ + exit_status@),
            MonitorEvent::WaitFailed { error } => (r.0 matches ProvisionedWorkerStatus::ErrorState(s)
                && s@ == "Error waiting for process exit: "@ + error@) && (r.1 matches Some(m) && m@
                == "Error waiting for process exit: "@ + error@),
            MonitorEvent::TimeLimitReached { limit } => r.0 == ProvisionedWorkerStatus::TimedOut && (
            r.1 matches Some(m) && m@ == "Execution timed out after "@ + limit@),
        },
{
    match event {
        MonitorEvent::CancelRequested => (ProvisionedWorkerStatus::Cancelled, Some("Cancelled".to_owned())),
        MonitorEvent::Exited { success, exit_status } => {
            let message = "Process exited with status: ".to_owned().concat(exit_status.as_str());
            if success {
                (ProvisionedWorkerStatus::Succeeded, Some(message))
            } else {
                (ProvisionedWorkerStatus::Failed, Some(message))
            }
        },
        MonitorEvent::WaitFailed { error } => {
            let message = "Error waiting for process exit: ".to_owned().concat(error.as_str());
            (ProvisionedWorkerStatus::ErrorState(message.clone()), Some(message))
        },
        MonitorEvent::TimeLimitReached { limit } => (
            ProvisionedWorkerStatus::TimedOut,
            Some("Execution timed out after ".to_owned().concat(limit.as_str())),
        ),
    }
}

/// A status after which cancelling a worker needs no signal: it has
/// stopped for good. (A worker that timed out is not counted here.)
pub open spec fn stopped_for_cancellation(s: ProvisionedWorkerStatus) -> bool {
    match s {
        ProvisionedWorkerStatus::Succeeded | ProvisionedWorkerStatus::Failed
        | ProvisionedWorkerStatus::Cancelled | ProvisionedWorkerStatus::Terminated
        | ProvisionedWorkerStatus::ErrorState(_) => true,
        _ => false,
    }
}

/// What cancelling a tracked worker does next.
#[derive(Clone, Copy, Debug, PartialEq, Eq, Structural)]
pub enum CancelStep {
    /// The worker's watch has no cancellation signal left: it is already
    /// being stopped or has stopped, and cancelling succeeds.
    AlreadyStopping,
    /// Send the cancellation signal to the worker's watch.
    SendSignal,
    /// The signal reached the watch: the worker is now terminating.
    MarkTerminating,
    /// The signal was not delivered and the worker has stopped for good:
    /// cancelling succeeds.
    NothingToStop,
    /// The signal was not delivered and the worker may still run: kill its
    /// process directly.
    KillProcess,
}

/// The first step of cancelling a tracked worker.
pub fn cancel_first_step(has_cancel_signal: bool) -> (step: CancelStep)
    ensures
        step == if has_cancel_signal {
            CancelStep::SendSignal
        } else {
            CancelStep::AlreadyStopping
        },
{
    if has_cancel_signal {
        CancelStep::SendSignal
    } else {
        CancelStep::AlreadyStopping
    }
}

/// The step after sending the cancellation signal.
pub fn cancel_after_signal(delivered: bool, status: &ProvisionedWorkerStatus) -> (step: CancelStep)
    ensures
        step == if delivered {
            CancelStep::MarkTerminating
        } else if stopped_for_cancellation(*status) {
            CancelStep::NothingToStop
        } else {
            CancelStep::KillProcess
        },
{
    if delivered {
        return CancelStep::MarkTerminating;
    }
    match status {
        ProvisionedWorkerStatus::Succeeded | ProvisionedWorkerStatus::Failed
        | ProvisionedWorkerStatus::Cancelled | ProvisionedWorkerStatus::Terminated
        | ProvisionedWorkerStatus::ErrorState(_) => CancelStep::NothingToStop,
        _ => CancelStep::KillProcess,
    }
}

/// The message of the error for a direct kill that failed.
pub open spec fn kill_failed_message(worker_id: u128) -> Seq<char> {
    "Failed to send cancel signal for worker "@ + hyphenated_text(worker_id)
}

/// How cancelling ends after a direct kill: the worker is terminating when
/// the kill command ran, and cancelling fails otherwise.
pub fn cancel_after_kill(worker_id: u128, killed: bool) -> (r: Result<ProvisionedWorkerStatus, Error>)
    ensures
        match r {
            Ok(s) => killed && s == ProvisionedWorkerStatus::Terminating,
            Err(e) => !killed && (e matches Error::Internal(m) && m@ == kill_failed_message(worker_id)),
        },
{
    if killed {
        Ok(ProvisionedWorkerStatus::Terminating)
    } else {
        let m = "Failed to send cancel signal for worker ".to_owned().concat(
            uuid_string(worker_id).as_str(),
        );
        Err(Error::Internal(m))
    }
}

} // verus!
