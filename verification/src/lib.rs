//! Verified core of the iodine pipeline scheduler: the status vocabulary,
//! the task dependency graph and the decisions that the coordinator,
//! launchers, command router and execution managers take.

pub mod text;
pub mod status;

pub mod graph;
pub mod ids;
pub mod error;
pub mod task;
pub mod pipeline;
pub mod execution_graph;
pub mod resource_manager;
pub mod launcher;
pub mod router;
pub mod coordinator;
pub mod local_process;
pub mod exec_mgr_registry;
pub mod common;
pub mod code_registry;
pub mod proto;
pub mod registry;
pub mod gql;
pub mod resources;
pub mod event;
