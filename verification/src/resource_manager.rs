//! Workers and the execution managers that run them.

use vstd::prelude::*;

use crate::task::{ExecutionContext, ExecutionContextKind};

verus! {

/// A request to an execution manager to start a worker for a task attempt.
#[derive(Clone, Debug)]
pub struct WorkerRequest {
    pub pipeline_id: u128,
    pub run_id: u128,
    /// The id that the launcher gives this execution attempt.
    pub worker_id: u128,
    pub execution_context: ExecutionContext,
}

/// What an execution manager reports of a worker that it started.
#[derive(Clone, Debug)]
pub struct ProvisionedWorkerDetails {
    pub worker_id: u128,
    /// The platform's own name for the worker, such as a process id.
    pub platform_id: String,
    pub manager_id: u128,
    pub resource_type_provisioned: ExecutionContextKind,
}

/// The status of a worker, as its execution manager sees it.
#[derive(Clone, Debug)]
pub enum ProvisionedWorkerStatus {
    Pending,
    Initializing,
    Running,
    Succeeded,
    Failed,
    Cancelled,
    TimedOut,
    Terminating,
    Terminated,
    Unknown(Option<String>),
    ErrorState(String),
}

impl ProvisionedWorkerStatus {
    /// Whether the worker has stopped for good.
    pub open spec fn spec_is_terminal(&self) -> bool {
        match self {
            ProvisionedWorkerStatus::Succeeded | ProvisionedWorkerStatus::Failed
            | ProvisionedWorkerStatus::Cancelled | ProvisionedWorkerStatus::TimedOut
            | ProvisionedWorkerStatus::Terminated | ProvisionedWorkerStatus::ErrorState(_) => true,
            _ => false,
        }
    }

    /// Whether the worker has stopped for good.
    pub fn is_terminal(&self) -> (b: bool)
        ensures
            b == self.spec_is_terminal(),
    {
        match self {
            ProvisionedWorkerStatus::Succeeded | ProvisionedWorkerStatus::Failed
            | ProvisionedWorkerStatus::Cancelled | ProvisionedWorkerStatus::TimedOut
            | ProvisionedWorkerStatus::Terminated | ProvisionedWorkerStatus::ErrorState(_) => true,
            _ => false,
        }
    }
}

} // verus!
