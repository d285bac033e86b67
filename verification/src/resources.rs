//! What a resource manager is asked for and reports of the environments
//! that it provisions.

use std::collections::HashMap;

use vstd::prelude::*;

verus! {

/// A request for an environment in which to run a command.
pub struct ResourceRequest {
    pub pipeline_id: u128,
    pub run_id: u128,
    /// The preferred kind of resource, such as `docker`, `local_process` or
    /// `cloud_run_job`.
    pub resource_type_preference: String,
    pub cpu_request: Option<String>,
    pub memory_request: Option<String>,
    pub image_uri: Option<String>,
    /// The command to run in the environment.
    pub command_to_execute: Vec<String>,
    /// The command's arguments.
    pub command_args: Vec<String>,
    /// Environment variables of the command.
    pub environment_variables: HashMap<String, String>,
    /// How long the command may run, in seconds.
    pub execution_timeout_seconds: Option<u64>,
    /// Labels to put on the environment.
    pub labels: Option<HashMap<String, String>>,
}

/// What a resource manager reports of an environment that it provisioned.
pub struct ProvisionedResourceDetails {
    /// The environment's own id, such as a container id or a process id.
    pub instance_id: String,
    /// The id of the manager that provisioned it.
    pub manager_id: String,
    /// The kind of resource provisioned.
    pub resource_type_provisioned: String,
    /// How to reach the environment.
    pub connection_info: ResourceConnectionInfo,
    /// Data that only the manager reads, such as what teardown needs.
    pub manager_specific_opaque_data: serde_json::Value,
}

/// How to reach a provisioned environment.
#[derive(Debug, Clone, Copy, PartialEq, Eq, Structural)]
#[non_exhaustive]
pub enum ResourceConnectionInfo {
    LocalProcess { pid: u32 },
}

/// The state of a provisioned environment.
#[derive(Debug)]
pub enum ProvisionedResourceStatus {
    /// Being provisioned.
    Pending,
    /// Provisioned; what runs in it is starting.
    Initializing,
    /// Its command is running.
    Running,
    /// Its command finished successfully.
    Succeeded,
    /// Its command failed.
    Failed,
    /// Being torn down.
    Terminating,
    /// Torn down.
    Terminated,
    /// Its state cannot be told.
    Unknown(Option<String>),
    /// It is in a state it cannot recover from.
    ErrorState(String),
}

} // verus!
