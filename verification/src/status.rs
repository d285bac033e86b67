use vstd::prelude::*;

use crate::text::{same_text, UnknownVariant};

verus! {

/// Lifecycle status of a coordinator process.
#[derive(Clone, Copy, Debug, PartialEq, Eq, Structural)]
pub enum CoordinatorStatus {
    /// Started, not yet serving.
    Pending,
    /// Serving submissions.
    Running,
    /// Stopping its launchers.
    Terminating,
    /// Stopped.
    Terminated,
}

impl CoordinatorStatus {
    /// The text under which this value is stored and displayed.
    pub open spec fn text(self) -> Seq<char> {
        match self {
            CoordinatorStatus::Pending => "PENDING"@,
            CoordinatorStatus::Running => "RUNNING"@,
            CoordinatorStatus::Terminating => "TERMINATING"@,
            CoordinatorStatus::Terminated => "TERMINATED"@,
        }
    }

    /// The value whose text is `s`, if any.
    pub open spec fn parse(s: Seq<char>) -> Option<CoordinatorStatus> {
        if s == "PENDING"@ {
            Some(CoordinatorStatus::Pending)
        } else if s == "RUNNING"@ {
            Some(CoordinatorStatus::Running)
        } else if s == "TERMINATING"@ {
            Some(CoordinatorStatus::Terminating)
        } else if s == "TERMINATED"@ {
            Some(CoordinatorStatus::Terminated)
        } else {
            None
        }
    }

    /// Renders the value as its upper-case name.
    pub fn to_string(&self) -> (s: String)
        ensures
            s@ == self.text(),
    {
        match self {
            CoordinatorStatus::Pending => "PENDING".to_owned(),
            CoordinatorStatus::Running => "RUNNING".to_owned(),
            CoordinatorStatus::Terminating => "TERMINATING".to_owned(),
            CoordinatorStatus::Terminated => "TERMINATED".to_owned(),
        }
    }

    /// Parses the upper-case name of a value.
    pub fn from_str(s: &str) -> (r: Result<CoordinatorStatus, UnknownVariant>)
        ensures
            r == match CoordinatorStatus::parse(s@) {
                Some(v) => Ok::<CoordinatorStatus, UnknownVariant>(v),
                None => Err(UnknownVariant),
            },
    {
        if same_text(s, "PENDING") {
            return Ok(CoordinatorStatus::Pending);
        }
        if same_text(s, "RUNNING") {
            return Ok(CoordinatorStatus::Running);
        }
        if same_text(s, "TERMINATING") {
            return Ok(CoordinatorStatus::Terminating);
        }
        if same_text(s, "TERMINATED") {
            return Ok(CoordinatorStatus::Terminated);
        }
        Err(UnknownVariant)
    }
}

/// Severity of an event log record.
#[derive(Clone, Copy, Debug, PartialEq, Eq, Structural)]
pub enum EventSeverity {
    /// Detail for debugging.
    Debug,
    /// Routine information.
    Info,
    /// Something unexpected that was recovered from.
    Warn,
    /// A failure.
    Error,
    /// A failure that stops the scheduler.
    Fatal,
}

impl EventSeverity {
    /// The text under which this value is stored and displayed.
    pub open spec fn text(self) -> Seq<char> {
        match self {
            EventSeverity::Debug => "DEBUG"@,
            EventSeverity::Info => "INFO"@,
            EventSeverity::Warn => "WARN"@,
            EventSeverity::Error => "ERROR"@,
            EventSeverity::Fatal => "FATAL"@,
        }
    }

    /// The value whose text is `s`, if any.
    pub open spec fn parse(s: Seq<char>) -> Option<EventSeverity> {
        if s == "DEBUG"@ {
            Some(EventSeverity::Debug)
        } else if s == "INFO"@ {
            Some(EventSeverity::Info)
        } else if s == "WARN"@ {
            Some(EventSeverity::Warn)
        } else if s == "ERROR"@ {
            Some(EventSeverity::Error)
        } else if s == "FATAL"@ {
            Some(EventSeverity::Fatal)
        } else {
            None
        }
    }

    /// Renders the value as its upper-case name.
    pub fn to_string(&self) -> (s: String)
        ensures
            s@ == self.text(),
    {
        match self {
            EventSeverity::Debug => "DEBUG".to_owned(),
            EventSeverity::Info => "INFO".to_owned(),
            EventSeverity::Warn => "WARN".to_owned(),
            EventSeverity::Error => "ERROR".to_owned(),
            EventSeverity::Fatal => "FATAL".to_owned(),
        }
    }

    /// Parses the upper-case name of a value.
    pub fn from_str(s: &str) -> (r: Result<EventSeverity, UnknownVariant>)
        ensures
            r == match EventSeverity::parse(s@) {
                Some(v) => Ok::<EventSeverity, UnknownVariant>(v),
                None => Err(UnknownVariant),
            },
    {
        if same_text(s, "DEBUG") {
            return Ok(EventSeverity::Debug);
        }
        if same_text(s, "INFO") {
            return Ok(EventSeverity::Info);
        }
        if same_text(s, "WARN") {
            return Ok(EventSeverity::Warn);
        }
        if same_text(s, "ERROR") {
            return Ok(EventSeverity::Error);
        }
        if same_text(s, "FATAL") {
            return Ok(EventSeverity::Fatal);
        }
        Err(UnknownVariant)
    }
}

/// Default execution backend of a pipeline definition.
#[derive(Clone, Copy, Debug, PartialEq, Eq, Structural)]
pub enum PipelineBackend {
    /// Processes on the scheduler's machine.
    Local,
    /// Docker containers.
    Docker,
}

impl PipelineBackend {
    /// The text under which this value is stored and displayed.
    pub open spec fn text(self) -> Seq<char> {
        match self {
            PipelineBackend::Local => "LOCAL"@,
            PipelineBackend::Docker => "DOCKER"@,
        }
    }

    /// The value whose text is `s`, if any.
    pub open spec fn parse(s: Seq<char>) -> Option<PipelineBackend> {
        if s == "LOCAL"@ {
            Some(PipelineBackend::Local)
        } else if s == "DOCKER"@ {
            Some(PipelineBackend::Docker)
        } else {
            None
        }
    }

    /// Renders the value as its upper-case name.
    pub fn to_string(&self) -> (s: String)
        ensures
            s@ == self.text(),
    {
        match self {
            PipelineBackend::Local => "LOCAL".to_owned(),
            PipelineBackend::Docker => "DOCKER".to_owned(),
        }
    }

    /// Parses the upper-case name of a value.
    pub fn from_str(s: &str) -> (r: Result<PipelineBackend, UnknownVariant>)
        ensures
            r == match PipelineBackend::parse(s@) {
                Some(v) => Ok::<PipelineBackend, UnknownVariant>(v),
                None => Err(UnknownVariant),
            },
    {
        if same_text(s, "LOCAL") {
            return Ok(PipelineBackend::Local);
        }
        if same_text(s, "DOCKER") {
            return Ok(PipelineBackend::Docker);
        }
        Err(UnknownVariant)
    }
}

impl Default for PipelineBackend {
    /// Pipelines run locally unless they say otherwise.
    fn default() -> (b: PipelineBackend)
        ensures
            b == PipelineBackend::Local,
    {
        PipelineBackend::Local
    }
}

/// Status of a pipeline run.
#[derive(Clone, Copy, Debug, PartialEq, Eq, Structural)]
pub enum PipelineRunStatus {
    /// Created, not yet queued.
    Pending,
    /// Waiting for a launcher.
    Queued,
    /// Driven by a launcher.
    Running,
    /// Every task succeeded.
    Succeeded,
    /// Some task did not succeed.
    Failed,
    /// Being cancelled.
    Cancelling,
    /// Cancelled.
    Cancelled,
}

impl PipelineRunStatus {
    /// The text under which this value is stored and displayed.
    pub open spec fn text(self) -> Seq<char> {
        match self {
            PipelineRunStatus::Pending => "PENDING"@,
            PipelineRunStatus::Queued => "QUEUED"@,
            PipelineRunStatus::Running => "RUNNING"@,
            PipelineRunStatus::Succeeded => "SUCCEEDED"@,
            PipelineRunStatus::Failed => "FAILED"@,
            PipelineRunStatus::Cancelling => "CANCELLING"@,
            PipelineRunStatus::Cancelled => "CANCELLED"@,
        }
    }

    /// The value whose text is `s`, if any.
    pub open spec fn parse(s: Seq<char>) -> Option<PipelineRunStatus> {
        if s == "PENDING"@ {
            Some(PipelineRunStatus::Pending)
        } else if s == "QUEUED"@ {
            Some(PipelineRunStatus::Queued)
        } else if s == "RUNNING"@ {
            Some(PipelineRunStatus::Running)
        } else if s == "SUCCEEDED"@ {
            Some(PipelineRunStatus::Succeeded)
        } else if s == "FAILED"@ {
            Some(PipelineRunStatus::Failed)
        } else if s == "CANCELLING"@ {
            Some(PipelineRunStatus::Cancelling)
        } else if s == "CANCELLED"@ {
            Some(PipelineRunStatus::Cancelled)
        } else {
            None
        }
    }

    /// Renders the value as its upper-case name.
    pub fn to_string(&self) -> (s: String)
        ensures
            s@ == self.text(),
    {
        match self {
            PipelineRunStatus::Pending => "PENDING".to_owned(),
            PipelineRunStatus::Queued => "QUEUED".to_owned(),
            PipelineRunStatus::Running => "RUNNING".to_owned(),
            PipelineRunStatus::Succeeded => "SUCCEEDED".to_owned(),
            PipelineRunStatus::Failed => "FAILED".to_owned(),
            PipelineRunStatus::Cancelling => "CANCELLING".to_owned(),
            PipelineRunStatus::Cancelled => "CANCELLED".to_owned(),
        }
    }

    /// Parses the upper-case name of a value.
    pub fn from_str(s: &str) -> (r: Result<PipelineRunStatus, UnknownVariant>)
        ensures
            r == match PipelineRunStatus::parse(s@) {
                Some(v) => Ok::<PipelineRunStatus, UnknownVariant>(v),
                None => Err(UnknownVariant),
            },
    {
        if same_text(s, "PENDING") {
            return Ok(PipelineRunStatus::Pending);
        }
        if same_text(s, "QUEUED") {
            return Ok(PipelineRunStatus::Queued);
        }
        if same_text(s, "RUNNING") {
            return Ok(PipelineRunStatus::Running);
        }
        if same_text(s, "SUCCEEDED") {
            return Ok(PipelineRunStatus::Succeeded);
        }
        if same_text(s, "FAILED") {
            return Ok(PipelineRunStatus::Failed);
        }
        if same_text(s, "CANCELLING") {
            return Ok(PipelineRunStatus::Cancelling);
        }
        if same_text(s, "CANCELLED") {
            return Ok(PipelineRunStatus::Cancelled);
        }
        Err(UnknownVariant)
    }
}

/// Execution backend chosen for a pipeline run.
#[derive(Clone, Copy, Debug, PartialEq, Eq, Structural)]
pub enum PipelineRunBackend {
    /// Processes on the scheduler's machine.
    Local,
    /// Docker containers.
    Docker,
}

impl PipelineRunBackend {
    /// The text under which this value is stored and displayed.
    pub open spec fn text(self) -> Seq<char> {
        match self {
            PipelineRunBackend::Local => "LOCAL"@,
            PipelineRunBackend::Docker => "DOCKER"@,
        }
    }

    /// The value whose text is `s`, if any.
    pub open spec fn parse(s: Seq<char>) -> Option<PipelineRunBackend> {
        if s == "LOCAL"@ {
            Some(PipelineRunBackend::Local)
        } else if s == "DOCKER"@ {
            Some(PipelineRunBackend::Docker)
        } else {
            None
        }
    }

    /// Renders the value as its upper-case name.
    pub fn to_string(&self) -> (s: String)
        ensures
            s@ == self.text(),
    {
        match self {
            PipelineRunBackend::Local => "LOCAL".to_owned(),
            PipelineRunBackend::Docker => "DOCKER".to_owned(),
        }
    }

    /// Parses the upper-case name of a value.
    pub fn from_str(s: &str) -> (r: Result<PipelineRunBackend, UnknownVariant>)
        ensures
            r == match PipelineRunBackend::parse(s@) {
                Some(v) => Ok::<PipelineRunBackend, UnknownVariant>(v),
                None => Err(UnknownVariant),
            },
    {
        if same_text(s, "LOCAL") {
            return Ok(PipelineRunBackend::Local);
        }
        if same_text(s, "DOCKER") {
            return Ok(PipelineRunBackend::Docker);
        }
        Err(UnknownVariant)
    }
}

/// Status of a task instance.
#[derive(Clone, Copy, Debug, PartialEq, Eq, Structural)]
pub enum TaskStatus {
    /// Waiting for its dependencies.
    Pending,
    /// Ready, waiting for a worker.
    Queued,
    /// A worker runs it.
    Running,
    /// Waiting for another attempt.
    Retrying,
    /// Finished successfully.
    Succeeded,
    /// Finished unsuccessfully.
    Failed,
    /// Being cancelled.
    Cancelling,
    /// Cancelled.
    Cancelled,
    /// Not run.
    Skipped,
}

impl TaskStatus {
    /// The text under which this value is stored and displayed.
    pub open spec fn text(self) -> Seq<char> {
        match self {
            TaskStatus::Pending => "PENDING"@,
            TaskStatus::Queued => "QUEUED"@,
            TaskStatus::Running => "RUNNING"@,
            TaskStatus::Retrying => "RETRYING"@,
            TaskStatus::Succeeded => "SUCCEEDED"@,
            TaskStatus::Failed => "FAILED"@,
            TaskStatus::Cancelling => "CANCELLING"@,
            TaskStatus::Cancelled => "CANCELLED"@,
            TaskStatus::Skipped => "SKIPPED"@,
        }
    }

    /// The value whose text is `s`, if any.
    pub open spec fn parse(s: Seq<char>) -> Option<TaskStatus> {
        if s == "PENDING"@ {
            Some(TaskStatus::Pending)
        } else if s == "QUEUED"@ {
            Some(TaskStatus::Queued)
        } else if s == "RUNNING"@ {
            Some(TaskStatus::Running)
        } else if s == "RETRYING"@ {
            Some(TaskStatus::Retrying)
        } else if s == "SUCCEEDED"@ {
            Some(TaskStatus::Succeeded)
        } else if s == "FAILED"@ {
            Some(TaskStatus::Failed)
        } else if s == "CANCELLING"@ {
            Some(TaskStatus::Cancelling)
        } else if s == "CANCELLED"@ {
            Some(TaskStatus::Cancelled)
        } else if s == "SKIPPED"@ {
            Some(TaskStatus::Skipped)
        } else {
            None
        }
    }

    /// Renders the value as its upper-case name.
    pub fn to_string(&self) -> (s: String)
        ensures
            s@ == self.text(),
    {
        match self {
            TaskStatus::Pending => "PENDING".to_owned(),
            TaskStatus::Queued => "QUEUED".to_owned(),
            TaskStatus::Running => "RUNNING".to_owned(),
            TaskStatus::Retrying => "RETRYING".to_owned(),
            TaskStatus::Succeeded => "SUCCEEDED".to_owned(),
            TaskStatus::Failed => "FAILED".to_owned(),
            TaskStatus::Cancelling => "CANCELLING".to_owned(),
            TaskStatus::Cancelled => "CANCELLED".to_owned(),
            TaskStatus::Skipped => "SKIPPED".to_owned(),
        }
    }

    /// Parses the upper-case name of a value.
    pub fn from_str(s: &str) -> (r: Result<TaskStatus, UnknownVariant>)
        ensures
            r == match TaskStatus::parse(s@) {
                Some(v) => Ok::<TaskStatus, UnknownVariant>(v),
                None => Err(UnknownVariant),
            },
    {
        if same_text(s, "PENDING") {
            return Ok(TaskStatus::Pending);
        }
        if same_text(s, "QUEUED") {
            return Ok(TaskStatus::Queued);
        }
        if same_text(s, "RUNNING") {
            return Ok(TaskStatus::Running);
        }
        if same_text(s, "RETRYING") {
            return Ok(TaskStatus::Retrying);
        }
        if same_text(s, "SUCCEEDED") {
            return Ok(TaskStatus::Succeeded);
        }
        if same_text(s, "FAILED") {
            return Ok(TaskStatus::Failed);
        }
        if same_text(s, "CANCELLING") {
            return Ok(TaskStatus::Cancelling);
        }
        if same_text(s, "CANCELLED") {
            return Ok(TaskStatus::Cancelled);
        }
        if same_text(s, "SKIPPED") {
            return Ok(TaskStatus::Skipped);
        }
        Err(UnknownVariant)
    }
}

/// Status of a task run.
#[derive(Clone, Copy, Debug, PartialEq, Eq, Structural)]
pub enum TaskRunStatus {
    /// Waiting for its dependencies.
    Pending,
    /// Ready, waiting for a worker.
    Queued,
    /// A worker runs it.
    Running,
    /// Waiting for another attempt.
    Retrying,
    /// Finished successfully.
    Succeeded,
    /// Finished unsuccessfully.
    Failed,
    /// Being cancelled.
    Cancelling,
    /// Cancelled.
    Cancelled,
    /// Not run.
    Skipped,
}

impl TaskRunStatus {
    /// The text under which this value is stored and displayed.
    pub open spec fn text(self) -> Seq<char> {
        match self {
            TaskRunStatus::Pending => "PENDING"@,
            TaskRunStatus::Queued => "QUEUED"@,
            TaskRunStatus::Running => "RUNNING"@,
            TaskRunStatus::Retrying => "RETRYING"@,
            TaskRunStatus::Succeeded => "SUCCEEDED"@,
            TaskRunStatus::Failed => "FAILED"@,
            TaskRunStatus::Cancelling => "CANCELLING"@,
            TaskRunStatus::Cancelled => "CANCELLED"@,
            TaskRunStatus::Skipped => "SKIPPED"@,
        }
    }

    /// The value whose text is `s`, if any.
    pub open spec fn parse(s: Seq<char>) -> Option<TaskRunStatus> {
        if s == "PENDING"@ {
            Some(TaskRunStatus::Pending)
        } else if s == "QUEUED"@ {
            Some(TaskRunStatus::Queued)
        } else if s == "RUNNING"@ {
            Some(TaskRunStatus::Running)
        } else if s == "RETRYING"@ {
            Some(TaskRunStatus::Retrying)
        } else if s == "SUCCEEDED"@ {
            Some(TaskRunStatus::Succeeded)
        } else if s == "FAILED"@ {
            Some(TaskRunStatus::Failed)
        } else if s == "CANCELLING"@ {
            Some(TaskRunStatus::Cancelling)
        } else if s == "CANCELLED"@ {
            Some(TaskRunStatus::Cancelled)
        } else if s == "SKIPPED"@ {
            Some(TaskRunStatus::Skipped)
        } else {
            None
        }
    }

    /// Renders the value as its upper-case name.
    pub fn to_string(&self) -> (s: String)
        ensures
            s@ == self.text(),
    {
        match self {
            TaskRunStatus::Pending => "PENDING".to_owned(),
            TaskRunStatus::Queued => "QUEUED".to_owned(),
            TaskRunStatus::Running => "RUNNING".to_owned(),
            TaskRunStatus::Retrying => "RETRYING".to_owned(),
            TaskRunStatus::Succeeded => "SUCCEEDED".to_owned(),
            TaskRunStatus::Failed => "FAILED".to_owned(),
            TaskRunStatus::Cancelling => "CANCELLING".to_owned(),
            TaskRunStatus::Cancelled => "CANCELLED".to_owned(),
            TaskRunStatus::Skipped => "SKIPPED".to_owned(),
        }
    }

    /// Parses the upper-case name of a value.
    pub fn from_str(s: &str) -> (r: Result<TaskRunStatus, UnknownVariant>)
        ensures
            r == match TaskRunStatus::parse(s@) {
                Some(v) => Ok::<TaskRunStatus, UnknownVariant>(v),
                None => Err(UnknownVariant),
            },
    {
        if same_text(s, "PENDING") {
            return Ok(TaskRunStatus::Pending);
        }
        if same_text(s, "QUEUED") {
            return Ok(TaskRunStatus::Queued);
        }
        if same_text(s, "RUNNING") {
            return Ok(TaskRunStatus::Running);
        }
        if same_text(s, "RETRYING") {
            return Ok(TaskRunStatus::Retrying);
        }
        if same_text(s, "SUCCEEDED") {
            return Ok(TaskRunStatus::Succeeded);
        }
        if same_text(s, "FAILED") {
            return Ok(TaskRunStatus::Failed);
        }
        if same_text(s, "CANCELLING") {
            return Ok(TaskRunStatus::Cancelling);
        }
        if same_text(s, "CANCELLED") {
            return Ok(TaskRunStatus::Cancelled);
        }
        if same_text(s, "SKIPPED") {
            return Ok(TaskRunStatus::Skipped);
        }
        Err(UnknownVariant)
    }
}

/// Kind of an event recorded in the event log.
#[derive(Clone, Copy, Debug, PartialEq, Eq, Structural)]
#[non_exhaustive]
pub enum EventType {
    /// A pipeline definition was registered.
    DefinitionRegistered,
    /// A pipeline definition changed.
    DefinitionUpdated,
    /// A pipeline definition was withdrawn.
    DefinitionDeregistered,
    /// A run entered the queue.
    RunEnqueued,
    /// A run left the queue.
    RunDequeued,
    /// A run is being set up.
    RunStarting,
    /// A run started.
    RunStart,
    /// A run succeeded.
    RunSuccess,
    /// A run failed.
    RunFailure,
    /// A run is being cancelled.
    RunCanceling,
    /// A run was cancelled.
    RunCanceled,
    /// A task waits for its dependencies.
    TaskPending,
    /// A task waits for a worker.
    TaskQueued,
    /// A task started.
    TaskStart,
    /// A task succeeded.
    TaskSuccess,
    /// A task failed.
    TaskFailure,
    /// A task was skipped.
    TaskSkipped,
    /// A task was cancelled.
    TaskCancelled,
    /// A task may be attempted again.
    TaskReadyToRetry,
    /// A task read an input.
    TaskInput,
    /// A task wrote an output.
    TaskOutput,
    /// A task checked an expectation.
    TaskExpectationResult,
    /// Something happened in the scheduler itself.
    EngineEvent,
    /// The scheduler failed to start.
    EngineInitFailure,
}

impl EventType {
    /// The name under which the event kind is displayed.
    pub open spec fn text(self) -> Seq<char> {
        match self {
            EventType::DefinitionRegistered => "DefinitionRegistered"@,
            EventType::DefinitionUpdated => "DefinitionUpdated"@,
            EventType::DefinitionDeregistered => "DefinitionDeregistered"@,
            EventType::RunEnqueued => "RunEnqueued"@,
            EventType::RunDequeued => "RunDequeued"@,
            EventType::RunStarting => "RunStarting"@,
            EventType::RunStart => "RunStart"@,
            EventType::RunSuccess => "RunSuccess"@,
            EventType::RunFailure => "RunFailure"@,
            EventType::RunCanceling => "RunCanceling"@,
            EventType::RunCanceled => "RunCanceled"@,
            EventType::TaskPending => "TaskPending"@,
            EventType::TaskQueued => "TaskQueued"@,
            EventType::TaskStart => "TaskStart"@,
            EventType::TaskSuccess => "TaskSuccess"@,
            EventType::TaskFailure => "TaskFailure"@,
            EventType::TaskSkipped => "TaskSkipped"@,
            EventType::TaskCancelled => "TaskCancelled"@,
            EventType::TaskReadyToRetry => "TaskReadyToRetry"@,
            EventType::TaskInput => "TaskInput"@,
            EventType::TaskOutput => "TaskOutput"@,
            EventType::TaskExpectationResult => "TaskExpectationResult"@,
            EventType::EngineEvent => "EngineEvent"@,
            EventType::EngineInitFailure => "EngineInitFailure"@,
        }
    }

    /// The screaming-snake-case name of the event kind, also accepted when parsing.
    pub open spec fn snake_text(self) -> Seq<char> {
        match self {
            EventType::DefinitionRegistered => "DEFINITION_REGISTERED"@,
            EventType::DefinitionUpdated => "DEFINITION_UPDATED"@,
            EventType::DefinitionDeregistered => "DEFINITION_DEREGISTERED"@,
            EventType::RunEnqueued => "RUN_ENQUEUED"@,
            EventType::RunDequeued => "RUN_DEQUEUED"@,
            EventType::RunStarting => "RUN_STARTING"@,
            EventType::RunStart => "RUN_START"@,
            EventType::RunSuccess => "RUN_SUCCESS"@,
            EventType::RunFailure => "RUN_FAILURE"@,
            EventType::RunCanceling => "RUN_CANCELING"@,
            EventType::RunCanceled => "RUN_CANCELED"@,
            EventType::TaskPending => "TASK_PENDING"@,
            EventType::TaskQueued => "TASK_QUEUED"@,
            EventType::TaskStart => "TASK_START"@,
            EventType::TaskSuccess => "TASK_SUCCESS"@,
            EventType::TaskFailure => "TASK_FAILURE"@,
            EventType::TaskSkipped => "TASK_SKIPPED"@,
            EventType::TaskCancelled => "TASK_CANCELLED"@,
            EventType::TaskReadyToRetry => "TASK_READY_TO_RETRY"@,
            EventType::TaskInput => "TASK_INPUT"@,
            EventType::TaskOutput => "TASK_OUTPUT"@,
            EventType::TaskExpectationResult => "TASK_EXPECTATION_RESULT"@,
            EventType::EngineEvent => "ENGINE_EVENT"@,
            EventType::EngineInitFailure => "ENGINE_INIT_FAILURE"@,
        }
    }

    /// The event kind named by `s`, in either of its two spellings.
    pub open spec fn parse(s: Seq<char>) -> Option<EventType> {
        if s == "DefinitionRegistered"@ || s == "DEFINITION_REGISTERED"@ {
            Some(EventType::DefinitionRegistered)
        } else if s == "DefinitionUpdated"@ || s == "DEFINITION_UPDATED"@ {
            Some(EventType::DefinitionUpdated)
        } else if s == "DefinitionDeregistered"@ || s == "DEFINITION_DEREGISTERED"@ {
            Some(EventType::DefinitionDeregistered)
        } else if s == "RunEnqueued"@ || s == "RUN_ENQUEUED"@ {
            Some(EventType::RunEnqueued)
        } else if s == "RunDequeued"@ || s == "RUN_DEQUEUED"@ {
            Some(EventType::RunDequeued)
        } else if s == "RunStarting"@ || s == "RUN_STARTING"@ {
            Some(EventType::RunStarting)
        } else if s == "RunStart"@ || s == "RUN_START"@ {
            Some(EventType::RunStart)
        } else if s == "RunSuccess"@ || s == "RUN_SUCCESS"@ {
            Some(EventType::RunSuccess)
        } else if s == "RunFailure"@ || s == "RUN_FAILURE"@ {
            Some(EventType::RunFailure)
        } else if s == "RunCanceling"@ || s == "RUN_CANCELING"@ {
            Some(EventType::RunCanceling)
        } else if s == "RunCanceled"@ || s == "RUN_CANCELED"@ {
            Some(EventType::RunCanceled)
        } else if s == "TaskPending"@ || s == "TASK_PENDING"@ {
            Some(EventType::TaskPending)
        } else if s == "TaskQueued"@ || s == "TASK_QUEUED"@ {
            Some(EventType::TaskQueued)
        } else if s == "TaskStart"@ || s == "TASK_START"@ {
            Some(EventType::TaskStart)
        } else if s == "TaskSuccess"@ || s == "TASK_SUCCESS"@ {
            Some(EventType::TaskSuccess)
        } else if s == "TaskFailure"@ || s == "TASK_FAILURE"@ {
            Some(EventType::TaskFailure)
        } else if s == "TaskSkipped"@ || s == "TASK_SKIPPED"@ {
            Some(EventType::TaskSkipped)
        } else if s == "TaskCancelled"@ || s == "TASK_CANCELLED"@ {
            Some(EventType::TaskCancelled)
        } else if s == "TaskReadyToRetry"@ || s == "TASK_READY_TO_RETRY"@ {
            Some(EventType::TaskReadyToRetry)
        } else if s == "TaskInput"@ || s == "TASK_INPUT"@ {
            Some(EventType::TaskInput)
        } else if s == "TaskOutput"@ || s == "TASK_OUTPUT"@ {
            Some(EventType::TaskOutput)
        } else if s == "TaskExpectationResult"@ || s == "TASK_EXPECTATION_RESULT"@ {
            Some(EventType::TaskExpectationResult)
        } else if s == "EngineEvent"@ || s == "ENGINE_EVENT"@ {
            Some(EventType::EngineEvent)
        } else if s == "EngineInitFailure"@ || s == "ENGINE_INIT_FAILURE"@ {
            Some(EventType::EngineInitFailure)
        } else {
            None
        }
    }

    /// Renders the event kind as its name.
    pub fn to_string(&self) -> (s: String)
        ensures
            s@ == self.text(),
    {
        match self {
            EventType::DefinitionRegistered => "DefinitionRegistered".to_owned(),
            EventType::DefinitionUpdated => "DefinitionUpdated".to_owned(),
            EventType::DefinitionDeregistered => "DefinitionDeregistered".to_owned(),
            EventType::RunEnqueued => "RunEnqueued".to_owned(),
            EventType::RunDequeued => "RunDequeued".to_owned(),
            EventType::RunStarting => "RunStarting".to_owned(),
            EventType::RunStart => "RunStart".to_owned(),
            EventType::RunSuccess => "RunSuccess".to_owned(),
            EventType::RunFailure => "RunFailure".to_owned(),
            EventType::RunCanceling => "RunCanceling".to_owned(),
            EventType::RunCanceled => "RunCanceled".to_owned(),
            EventType::TaskPending => "TaskPending".to_owned(),
            EventType::TaskQueued => "TaskQueued".to_owned(),
            EventType::TaskStart => "TaskStart".to_owned(),
            EventType::TaskSuccess => "TaskSuccess".to_owned(),
            EventType::TaskFailure => "TaskFailure".to_owned(),
            EventType::TaskSkipped => "TaskSkipped".to_owned(),
            EventType::TaskCancelled => "TaskCancelled".to_owned(),
            EventType::TaskReadyToRetry => "TaskReadyToRetry".to_owned(),
            EventType::TaskInput => "TaskInput".to_owned(),
            EventType::TaskOutput => "TaskOutput".to_owned(),
            EventType::TaskExpectationResult => "TaskExpectationResult".to_owned(),
            EventType::EngineEvent => "EngineEvent".to_owned(),
            EventType::EngineInitFailure => "EngineInitFailure".to_owned(),
        }
    }

    /// Parses an event kind from its name or its screaming-snake-case name.
    pub fn from_str(s: &str) -> (r: Result<EventType, UnknownVariant>)
        ensures
            r == match EventType::parse(s@) {
                Some(v) => Ok::<EventType, UnknownVariant>(v),
                None => Err(UnknownVariant),
            },
    {
        if same_text(s, "DefinitionRegistered") || same_text(s, "DEFINITION_REGISTERED") {
            return Ok(EventType::DefinitionRegistered);
        }
        if same_text(s, "DefinitionUpdated") || same_text(s, "DEFINITION_UPDATED") {
            return Ok(EventType::DefinitionUpdated);
        }
        if same_text(s, "DefinitionDeregistered") || same_text(s, "DEFINITION_DEREGISTERED") {
            return Ok(EventType::DefinitionDeregistered);
        }
        if same_text(s, "RunEnqueued") || same_text(s, "RUN_ENQUEUED") {
            return Ok(EventType::RunEnqueued);
        }
        if same_text(s, "RunDequeued") || same_text(s, "RUN_DEQUEUED") {
            return Ok(EventType::RunDequeued);
        }
        if same_text(s, "RunStarting") || same_text(s, "RUN_STARTING") {
            return Ok(EventType::RunStarting);
        }
        if same_text(s, "RunStart") || same_text(s, "RUN_START") {
            return Ok(EventType::RunStart);
        }
        if same_text(s, "RunSuccess") || same_text(s, "RUN_SUCCESS") {
            return Ok(EventType::RunSuccess);
        }
        if same_text(s, "RunFailure") || same_text(s, "RUN_FAILURE") {
            return Ok(EventType::RunFailure);
        }
        if same_text(s, "RunCanceling") || same_text(s, "RUN_CANCELING") {
            return Ok(EventType::RunCanceling);
        }
        if same_text(s, "RunCanceled") || same_text(s, "RUN_CANCELED") {
            return Ok(EventType::RunCanceled);
        }
        if same_text(s, "TaskPending") || same_text(s, "TASK_PENDING") {
            return Ok(EventType::TaskPending);
        }
        if same_text(s, "TaskQueued") || same_text(s, "TASK_QUEUED") {
            return Ok(EventType::TaskQueued);
        }
        if same_text(s, "TaskStart") || same_text(s, "TASK_START") {
            return Ok(EventType::TaskStart);
        }
        if same_text(s, "TaskSuccess") || same_text(s, "TASK_SUCCESS") {
            return Ok(EventType::TaskSuccess);
        }
        if same_text(s, "TaskFailure") || same_text(s, "TASK_FAILURE") {
            return Ok(EventType::TaskFailure);
        }
        if same_text(s, "TaskSkipped") || same_text(s, "TASK_SKIPPED") {
            return Ok(EventType::TaskSkipped);
        }
        if same_text(s, "TaskCancelled") || same_text(s, "TASK_CANCELLED") {
            return Ok(EventType::TaskCancelled);
        }
        if same_text(s, "TaskReadyToRetry") || same_text(s, "TASK_READY_TO_RETRY") {
            return Ok(EventType::TaskReadyToRetry);
        }
        if same_text(s, "TaskInput") || same_text(s, "TASK_INPUT") {
            return Ok(EventType::TaskInput);
        }
        if same_text(s, "TaskOutput") || same_text(s, "TASK_OUTPUT") {
            return Ok(EventType::TaskOutput);
        }
        if same_text(s, "TaskExpectationResult") || same_text(s, "TASK_EXPECTATION_RESULT") {
            return Ok(EventType::TaskExpectationResult);
        }
        if same_text(s, "EngineEvent") || same_text(s, "ENGINE_EVENT") {
            return Ok(EventType::EngineEvent);
        }
        if same_text(s, "EngineInitFailure") || same_text(s, "ENGINE_INIT_FAILURE") {
            return Ok(EventType::EngineInitFailure);
        }
        Err(UnknownVariant)
    }
}

/// The length and the first character of a text: enough to tell apart the
/// upper-case names of any one status enumeration.
pub open spec fn head_key(s: Seq<char>) -> (nat, char) {
    (s.len(), s[0])
}

/// The length and the first seven characters of a text: enough to tell
/// apart the names of the event kinds, in either spelling.
pub open spec fn prefix_key(s: Seq<char>) -> (nat, char, char, char, char, char, char, char) {
    (s.len(), s[0], s[1], s[2], s[3], s[4], s[5], s[6])
}

/// Parsing the name of an event kind, or its screaming-snake-case name,
/// gives the kind back.
pub proof fn law_event_type_text_round_trip(v: EventType)
    ensures
        EventType::parse(v.text()) == Some(v),
        EventType::parse(v.snake_text()) == Some(v),
{
    reveal_strlit("DefinitionRegistered");
    assert(prefix_key("DefinitionRegistered"@) == (20nat, 'D', 'e', 'f', 'i', 'n', 'i', 't'));
    reveal_strlit("DEFINITION_REGISTERED");
    assert(prefix_key("DEFINITION_REGISTERED"@) == (21nat, 'D', 'E', 'F', 'I', 'N', 'I', 'T'));
    reveal_strlit("DefinitionUpdated");
    assert(prefix_key("DefinitionUpdated"@) == (17nat, 'D', 'e', 'f', 'i', 'n', 'i', 't'));
    reveal_strlit("DEFINITION_UPDATED");
    assert(prefix_key("DEFINITION_UPDATED"@) == (18nat, 'D', 'E', 'F', 'I', 'N', 'I', 'T'));
    reveal_strlit("DefinitionDeregistered");
    assert(prefix_key("DefinitionDeregistered"@) == (22nat, 'D', 'e', 'f', 'i', 'n', 'i', 't'));
    reveal_strlit("DEFINITION_DEREGISTERED");
    assert(prefix_key("DEFINITION_DEREGISTERED"@) == (23nat, 'D', 'E', 'F', 'I', 'N', 'I', 'T'));
    reveal_strlit("RunEnqueued");
    assert(prefix_key("RunEnqueued"@) == (11nat, 'R', 'u', 'n', 'E', 'n', 'q', 'u'));
    reveal_strlit("RUN_ENQUEUED");
    assert(prefix_key("RUN_ENQUEUED"@) == (12nat, 'R', 'U', 'N', '_', 'E', 'N', 'Q'));
    reveal_strlit("RunDequeued");
    assert(prefix_key("RunDequeued"@) == (11nat, 'R', 'u', 'n', 'D', 'e', 'q', 'u'));
    reveal_strlit("RUN_DEQUEUED");
    assert(prefix_key("RUN_DEQUEUED"@) == (12nat, 'R', 'U', 'N', '_', 'D', 'E', 'Q'));
    reveal_strlit("RunStarting");
    assert(prefix_key("RunStarting"@) == (11nat, 'R', 'u', 'n', 'S', 't', 'a', 'r'));
    reveal_strlit("RUN_STARTING");
    assert(prefix_key("RUN_STARTING"@) == (12nat, 'R', 'U', 'N', '_', 'S', 'T', 'A'));
    reveal_strlit("RunStart");
    assert(prefix_key("RunStart"@) == (8nat, 'R', 'u', 'n', 'S', 't', 'a', 'r'));
    reveal_strlit("RUN_START");
    assert(prefix_key("RUN_START"@) == (9nat, 'R', 'U', 'N', '_', 'S', 'T', 'A'));
    reveal_strlit("RunSuccess");
    assert(prefix_key("RunSuccess"@) == (10nat, 'R', 'u', 'n', 'S', 'u', 'c', 'c'));
    reveal_strlit("RUN_SUCCESS");
    assert(prefix_key("RUN_SUCCESS"@) == (11nat, 'R', 'U', 'N', '_', 'S', 'U', 'C'));
    reveal_strlit("RunFailure");
    assert(prefix_key("RunFailure"@) == (10nat, 'R', 'u', 'n', 'F', 'a', 'i', 'l'));
    reveal_strlit("RUN_FAILURE");
    assert(prefix_key("RUN_FAILURE"@) == (11nat, 'R', 'U', 'N', '_', 'F', 'A', 'I'));
    reveal_strlit("RunCanceling");
    assert(prefix_key("RunCanceling"@) == (12nat, 'R', 'u', 'n', 'C', 'a', 'n', 'c'));
    reveal_strlit("RUN_CANCELING");
    assert(prefix_key("RUN_CANCELING"@) == (13nat, 'R', 'U', 'N', '_', 'C', 'A', 'N'));
    reveal_strlit("RunCanceled");
    assert(prefix_key("RunCanceled"@) == (11nat, 'R', 'u', 'n', 'C', 'a', 'n', 'c'));
    reveal_strlit("RUN_CANCELED");
    assert(prefix_key("RUN_CANCELED"@) == (12nat, 'R', 'U', 'N', '_', 'C', 'A', 'N'));
    reveal_strlit("TaskPending");
    assert(prefix_key("TaskPending"@) == (11nat, 'T', 'a', 's', 'k', 'P', 'e', 'n'));
    reveal_strlit("TASK_PENDING");
    assert(prefix_key("TASK_PENDING"@) == (12nat, 'T', 'A', 'S', 'K', '_', 'P', 'E'));
    reveal_strlit("TaskQueued");
    assert(prefix_key("TaskQueued"@) == (10nat, 'T', 'a', 's', 'k', 'Q', 'u', 'e'));
    reveal_strlit("TASK_QUEUED");
    assert(prefix_key("TASK_QUEUED"@) == (11nat, 'T', 'A', 'S', 'K', '_', 'Q', 'U'));
    reveal_strlit("TaskStart");
    assert(prefix_key("TaskStart"@) == (9nat, 'T', 'a', 's', 'k', 'S', 't', 'a'));
    reveal_strlit("TASK_START");
    assert(prefix_key("TASK_START"@) == (10nat, 'T', 'A', 'S', 'K', '_', 'S', 'T'));
    reveal_strlit("TaskSuccess");
    assert(prefix_key("TaskSuccess"@) == (11nat, 'T', 'a', 's', 'k', 'S', 'u', 'c'));
    reveal_strlit("TASK_SUCCESS");
    assert(prefix_key("TASK_SUCCESS"@) == (12nat, 'T', 'A', 'S', 'K', '_', 'S', 'U'));
    reveal_strlit("TaskFailure");
    assert(prefix_key("TaskFailure"@) == (11nat, 'T', 'a', 's', 'k', 'F', 'a', 'i'));
    reveal_strlit("TASK_FAILURE");
    assert(prefix_key("TASK_FAILURE"@) == (12nat, 'T', 'A', 'S', 'K', '_', 'F', 'A'));
    reveal_strlit("TaskSkipped");
    assert(prefix_key("TaskSkipped"@) == (11nat, 'T', 'a', 's', 'k', 'S', 'k', 'i'));
    reveal_strlit("TASK_SKIPPED");
    assert(prefix_key("TASK_SKIPPED"@) == (12nat, 'T', 'A', 'S', 'K', '_', 'S', 'K'));
    reveal_strlit("TaskCancelled");
    assert(prefix_key("TaskCancelled"@) == (13nat, 'T', 'a', 's', 'k', 'C', 'a', 'n'));
    reveal_strlit("TASK_CANCELLED");
    assert(prefix_key("TASK_CANCELLED"@) == (14nat, 'T', 'A', 'S', 'K', '_', 'C', 'A'));
    reveal_strlit("TaskReadyToRetry");
    assert(prefix_key("TaskReadyToRetry"@) == (16nat, 'T', 'a', 's', 'k', 'R', 'e', 'a'));
    reveal_strlit("TASK_READY_TO_RETRY");
    assert(prefix_key("TASK_READY_TO_RETRY"@) == (19nat, 'T', 'A', 'S', 'K', '_', 'R', 'E'));
    reveal_strlit("TaskInput");
    assert(prefix_key("TaskInput"@) == (9nat, 'T', 'a', 's', 'k', 'I', 'n', 'p'));
    reveal_strlit("TASK_INPUT");
    assert(prefix_key("TASK_INPUT"@) == (10nat, 'T', 'A', 'S', 'K', '_', 'I', 'N'));
    reveal_strlit("TaskOutput");
    assert(prefix_key("TaskOutput"@) == (10nat, 'T', 'a', 's', 'k', 'O', 'u', 't'));
    reveal_strlit("TASK_OUTPUT");
    assert(prefix_key("TASK_OUTPUT"@) == (11nat, 'T', 'A', 'S', 'K', '_', 'O', 'U'));
    reveal_strlit("TaskExpectationResult");
    assert(prefix_key("TaskExpectationResult"@) == (21nat, 'T', 'a', 's', 'k', 'E', 'x', 'p'));
    reveal_strlit("TASK_EXPECTATION_RESULT");
    assert(prefix_key("TASK_EXPECTATION_RESULT"@) == (23nat, 'T', 'A', 'S', 'K', '_', 'E', 'X'));
    reveal_strlit("EngineEvent");
    assert(prefix_key("EngineEvent"@) == (11nat, 'E', 'n', 'g', 'i', 'n', 'e', 'E'));
    reveal_strlit("ENGINE_EVENT");
    assert(prefix_key("ENGINE_EVENT"@) == (12nat, 'E', 'N', 'G', 'I', 'N', 'E', '_'));
    reveal_strlit("EngineInitFailure");
    assert(prefix_key("EngineInitFailure"@) == (17nat, 'E', 'n', 'g', 'i', 'n', 'e', 'I'));
    reveal_strlit("ENGINE_INIT_FAILURE");
    assert(prefix_key("ENGINE_INIT_FAILURE"@) == (19nat, 'E', 'N', 'G', 'I', 'N', 'E', '_'));
}

/// Parsing the text of a `CoordinatorStatus` value gives that value back.
pub proof fn law_coordinator_status_text_round_trip(v: CoordinatorStatus)
    ensures
        CoordinatorStatus::parse(v.text()) == Some(v),
{
    reveal_strlit("PENDING");
    assert(head_key("PENDING"@) == (7nat, 'P'));
    reveal_strlit("RUNNING");
    assert(head_key("RUNNING"@) == (7nat, 'R'));
    reveal_strlit("TERMINATING");
    assert(head_key("TERMINATING"@) == (11nat, 'T'));
    reveal_strlit("TERMINATED");
    assert(head_key("TERMINATED"@) == (10nat, 'T'));
}

/// Parsing the text of a `EventSeverity` value gives that value back.
pub proof fn law_event_severity_text_round_trip(v: EventSeverity)
    ensures
        EventSeverity::parse(v.text()) == Some(v),
{
    reveal_strlit("DEBUG");
    assert(head_key("DEBUG"@) == (5nat, 'D'));
    reveal_strlit("INFO");
    assert(head_key("INFO"@) == (4nat, 'I'));
    reveal_strlit("WARN");
    assert(head_key("WARN"@) == (4nat, 'W'));
    reveal_strlit("ERROR");
    assert(head_key("ERROR"@) == (5nat, 'E'));
    reveal_strlit("FATAL");
    assert(head_key("FATAL"@) == (5nat, 'F'));
}

/// Parsing the text of a `PipelineBackend` value gives that value back.
pub proof fn law_pipeline_backend_text_round_trip(v: PipelineBackend)
    ensures
        PipelineBackend::parse(v.text()) == Some(v),
{
    reveal_strlit("LOCAL");
    assert(head_key("LOCAL"@) == (5nat, 'L'));
    reveal_strlit("DOCKER");
    assert(head_key("DOCKER"@) == (6nat, 'D'));
}

/// Parsing the text of a `PipelineRunStatus` value gives that value back.
pub proof fn law_pipeline_run_status_text_round_trip(v: PipelineRunStatus)
    ensures
        PipelineRunStatus::parse(v.text()) == Some(v),
{
    reveal_strlit("PENDING");
    assert(head_key("PENDING"@) == (7nat, 'P'));
    reveal_strlit("QUEUED");
    assert(head_key("QUEUED"@) == (6nat, 'Q'));
    reveal_strlit("RUNNING");
    assert(head_key("RUNNING"@) == (7nat, 'R'));
    reveal_strlit("SUCCEEDED");
    assert(head_key("SUCCEEDED"@) == (9nat, 'S'));
    reveal_strlit("FAILED");
    assert(head_key("FAILED"@) == (6nat, 'F'));
    reveal_strlit("CANCELLING");
    assert(head_key("CANCELLING"@) == (10nat, 'C'));
    reveal_strlit("CANCELLED");
    assert(head_key("CANCELLED"@) == (9nat, 'C'));
}

/// Parsing the text of a `PipelineRunBackend` value gives that value back.
pub proof fn law_pipeline_run_backend_text_round_trip(v: PipelineRunBackend)
    ensures
        PipelineRunBackend::parse(v.text()) == Some(v),
{
    reveal_strlit("LOCAL");
    assert(head_key("LOCAL"@) == (5nat, 'L'));
    reveal_strlit("DOCKER");
    assert(head_key("DOCKER"@) == (6nat, 'D'));
}

/// Parsing the text of a `TaskStatus` value gives that value back.
pub proof fn law_task_status_text_round_trip(v: TaskStatus)
    ensures
        TaskStatus::parse(v.text()) == Some(v),
{
    reveal_strlit("PENDING");
    assert(head_key("PENDING"@) == (7nat, 'P'));
    reveal_strlit("QUEUED");
    assert(head_key("QUEUED"@) == (6nat, 'Q'));
    reveal_strlit("RUNNING");
    assert(head_key("RUNNING"@) == (7nat, 'R'));
    reveal_strlit("RETRYING");
    assert(head_key("RETRYING"@) == (8nat, 'R'));
    reveal_strlit("SUCCEEDED");
    assert(head_key("SUCCEEDED"@) == (9nat, 'S'));
    reveal_strlit("FAILED");
    assert(head_key("FAILED"@) == (6nat, 'F'));
    reveal_strlit("CANCELLING");
    assert(head_key("CANCELLING"@) == (10nat, 'C'));
    reveal_strlit("CANCELLED");
    assert(head_key("CANCELLED"@) == (9nat, 'C'));
    reveal_strlit("SKIPPED");
    assert(head_key("SKIPPED"@) == (7nat, 'S'));
}

/// Parsing the text of a `TaskRunStatus` value gives that value back.
pub proof fn law_task_run_status_text_round_trip(v: TaskRunStatus)
    ensures
        TaskRunStatus::parse(v.text()) == Some(v),
{
    reveal_strlit("PENDING");
    assert(head_key("PENDING"@) == (7nat, 'P'));
    reveal_strlit("QUEUED");
    assert(head_key("QUEUED"@) == (6nat, 'Q'));
    reveal_strlit("RUNNING");
    assert(head_key("RUNNING"@) == (7nat, 'R'));
    reveal_strlit("RETRYING");
    assert(head_key("RETRYING"@) == (8nat, 'R'));
    reveal_strlit("SUCCEEDED");
    assert(head_key("SUCCEEDED"@) == (9nat, 'S'));
    reveal_strlit("FAILED");
    assert(head_key("FAILED"@) == (6nat, 'F'));
    reveal_strlit("CANCELLING");
    assert(head_key("CANCELLING"@) == (10nat, 'C'));
    reveal_strlit("CANCELLED");
    assert(head_key("CANCELLED"@) == (9nat, 'C'));
    reveal_strlit("SKIPPED");
    assert(head_key("SKIPPED"@) == (7nat, 'S'));
}

/// The text of each `CoordinatorStatus` value is the name of the value in upper case,
/// and that text parses back to the value: a fixed table, one row per value.
pub proof fn law_coordinator_status_text_table()
    ensures
        CoordinatorStatus::Pending.text() == "PENDING"@,
        CoordinatorStatus::Running.text() == "RUNNING"@,
        CoordinatorStatus::Terminating.text() == "TERMINATING"@,
        CoordinatorStatus::Terminated.text() == "TERMINATED"@,
        CoordinatorStatus::parse("PENDING"@) == Some(CoordinatorStatus::Pending),
        CoordinatorStatus::parse("RUNNING"@) == Some(CoordinatorStatus::Running),
        CoordinatorStatus::parse("TERMINATING"@) == Some(CoordinatorStatus::Terminating),
        CoordinatorStatus::parse("TERMINATED"@) == Some(CoordinatorStatus::Terminated),
{
    law_coordinator_status_text_round_trip(CoordinatorStatus::Pending);
    law_coordinator_status_text_round_trip(CoordinatorStatus::Running);
    law_coordinator_status_text_round_trip(CoordinatorStatus::Terminating);
    law_coordinator_status_text_round_trip(CoordinatorStatus::Terminated);
}

/// The text of each `EventSeverity` value is the name of the value in upper case,
/// and that text parses back to the value: a fixed table, one row per value.
pub proof fn law_event_severity_text_table()
    ensures
        EventSeverity::Debug.text() == "DEBUG"@,
        EventSeverity::Info.text() == "INFO"@,
        EventSeverity::Warn.text() == "WARN"@,
        EventSeverity::Error.text() == "ERROR"@,
        EventSeverity::Fatal.text() == "FATAL"@,
        EventSeverity::parse("DEBUG"@) == Some(EventSeverity::Debug),
        EventSeverity::parse("INFO"@) == Some(EventSeverity::Info),
        EventSeverity::parse("WARN"@) == Some(EventSeverity::Warn),
        EventSeverity::parse("ERROR"@) == Some(EventSeverity::Error),
        EventSeverity::parse("FATAL"@) == Some(EventSeverity::Fatal),
{
    law_event_severity_text_round_trip(EventSeverity::Debug);
    law_event_severity_text_round_trip(EventSeverity::Info);
    law_event_severity_text_round_trip(EventSeverity::Warn);
    law_event_severity_text_round_trip(EventSeverity::Error);
    law_event_severity_text_round_trip(EventSeverity::Fatal);
}

/// The text of each `PipelineBackend` value is the name of the value in upper case,
/// and that text parses back to the value: a fixed table, one row per value.
pub proof fn law_pipeline_backend_text_table()
    ensures
        PipelineBackend::Local.text() == "LOCAL"@,
        PipelineBackend::Docker.text() == "DOCKER"@,
        PipelineBackend::parse("LOCAL"@) == Some(PipelineBackend::Local),
        PipelineBackend::parse("DOCKER"@) == Some(PipelineBackend::Docker),
{
    law_pipeline_backend_text_round_trip(PipelineBackend::Local);
    law_pipeline_backend_text_round_trip(PipelineBackend::Docker);
}

/// The text of each `PipelineRunStatus` value is the name of the value in upper case,
/// and that text parses back to the value: a fixed table, one row per value.
pub proof fn law_pipeline_run_status_text_table()
    ensures
        PipelineRunStatus::Pending.text() == "PENDING"@,
        PipelineRunStatus::Queued.text() == "QUEUED"@,
        PipelineRunStatus::Running.text() == "RUNNING"@,
        PipelineRunStatus::Succeeded.text() == "SUCCEEDED"@,
        PipelineRunStatus::Failed.text() == "FAILED"@,
        PipelineRunStatus::Cancelling.text() == "CANCELLING"@,
        PipelineRunStatus::Cancelled.text() == "CANCELLED"@,
        PipelineRunStatus::parse("PENDING"@) == Some(PipelineRunStatus::Pending),
        PipelineRunStatus::parse("QUEUED"@) == Some(PipelineRunStatus::Queued),
        PipelineRunStatus::parse("RUNNING"@) == Some(PipelineRunStatus::Running),
        PipelineRunStatus::parse("SUCCEEDED"@) == Some(PipelineRunStatus::Succeeded),
        PipelineRunStatus::parse("FAILED"@) == Some(PipelineRunStatus::Failed),
        PipelineRunStatus::parse("CANCELLING"@) == Some(PipelineRunStatus::Cancelling),
        PipelineRunStatus::parse("CANCELLED"@) == Some(PipelineRunStatus::Cancelled),
{
    law_pipeline_run_status_text_round_trip(PipelineRunStatus::Pending);
    law_pipeline_run_status_text_round_trip(PipelineRunStatus::Queued);
    law_pipeline_run_status_text_round_trip(PipelineRunStatus::Running);
    law_pipeline_run_status_text_round_trip(PipelineRunStatus::Succeeded);
    law_pipeline_run_status_text_round_trip(PipelineRunStatus::Failed);
    law_pipeline_run_status_text_round_trip(PipelineRunStatus::Cancelling);
    law_pipeline_run_status_text_round_trip(PipelineRunStatus::Cancelled);
}

/// The text of each `PipelineRunBackend` value is the name of the value in upper case,
/// and that text parses back to the value: a fixed table, one row per value.
pub proof fn law_pipeline_run_backend_text_table()
    ensures
        PipelineRunBackend::Local.text() == "LOCAL"@,
        PipelineRunBackend::Docker.text() == "DOCKER"@,
        PipelineRunBackend::parse("LOCAL"@) == Some(PipelineRunBackend::Local),
        PipelineRunBackend::parse("DOCKER"@) == Some(PipelineRunBackend::Docker),
{
    law_pipeline_run_backend_text_round_trip(PipelineRunBackend::Local);
    law_pipeline_run_backend_text_round_trip(PipelineRunBackend::Docker);
}

/// The text of each `TaskStatus` value is the name of the value in upper case,
/// and that text parses back to the value: a fixed table, one row per value.
pub proof fn law_task_status_text_table()
    ensures
        TaskStatus::Pending.text() == "PENDING"@,
        TaskStatus::Queued.text() == "QUEUED"@,
        TaskStatus::Running.text() == "RUNNING"@,
        TaskStatus::Retrying.text() == "RETRYING"@,
        TaskStatus::Succeeded.text() == "SUCCEEDED"@,
        TaskStatus::Failed.text() == "FAILED"@,
        TaskStatus::Cancelling.text() == "CANCELLING"@,
        TaskStatus::Cancelled.text() == "CANCELLED"@,
        TaskStatus::Skipped.text() == "SKIPPED"@,
        TaskStatus::parse("PENDING"@) == Some(TaskStatus::Pending),
        TaskStatus::parse("QUEUED"@) == Some(TaskStatus::Queued),
        TaskStatus::parse("RUNNING"@) == Some(TaskStatus::Running),
        TaskStatus::parse("RETRYING"@) == Some(TaskStatus::Retrying),
        TaskStatus::parse("SUCCEEDED"@) == Some(TaskStatus::Succeeded),
        TaskStatus::parse("FAILED"@) == Some(TaskStatus::Failed),
        TaskStatus::parse("CANCELLING"@) == Some(TaskStatus::Cancelling),
        TaskStatus::parse("CANCELLED"@) == Some(TaskStatus::Cancelled),
        TaskStatus::parse("SKIPPED"@) == Some(TaskStatus::Skipped),
{
    law_task_status_text_round_trip(TaskStatus::Pending);
    law_task_status_text_round_trip(TaskStatus::Queued);
    law_task_status_text_round_trip(TaskStatus::Running);
    law_task_status_text_round_trip(TaskStatus::Retrying);
    law_task_status_text_round_trip(TaskStatus::Succeeded);
    law_task_status_text_round_trip(TaskStatus::Failed);
    law_task_status_text_round_trip(TaskStatus::Cancelling);
    law_task_status_text_round_trip(TaskStatus::Cancelled);
    law_task_status_text_round_trip(TaskStatus::Skipped);
}

/// The text of each `TaskRunStatus` value is the name of the value in upper case,
/// and that text parses back to the value: a fixed table, one row per value.
pub proof fn law_task_run_status_text_table()
    ensures
        TaskRunStatus::Pending.text() == "PENDING"@,
        TaskRunStatus::Queued.text() == "QUEUED"@,
        TaskRunStatus::Running.text() == "RUNNING"@,
        TaskRunStatus::Retrying.text() == "RETRYING"@,
        TaskRunStatus::Succeeded.text() == "SUCCEEDED"@,
        TaskRunStatus::Failed.text() == "FAILED"@,
        TaskRunStatus::Cancelling.text() == "CANCELLING"@,
        TaskRunStatus::Cancelled.text() == "CANCELLED"@,
        TaskRunStatus::Skipped.text() == "SKIPPED"@,
        TaskRunStatus::parse("PENDING"@) == Some(TaskRunStatus::Pending),
        TaskRunStatus::parse("QUEUED"@) == Some(TaskRunStatus::Queued),
        TaskRunStatus::parse("RUNNING"@) == Some(TaskRunStatus::Running),
        TaskRunStatus::parse("RETRYING"@) == Some(TaskRunStatus::Retrying),
        TaskRunStatus::parse("SUCCEEDED"@) == Some(TaskRunStatus::Succeeded),
        TaskRunStatus::parse("FAILED"@) == Some(TaskRunStatus::Failed),
        TaskRunStatus::parse("CANCELLING"@) == Some(TaskRunStatus::Cancelling),
        TaskRunStatus::parse("CANCELLED"@) == Some(TaskRunStatus::Cancelled),
        TaskRunStatus::parse("SKIPPED"@) == Some(TaskRunStatus::Skipped),
{
    law_task_run_status_text_round_trip(TaskRunStatus::Pending);
    law_task_run_status_text_round_trip(TaskRunStatus::Queued);
    law_task_run_status_text_round_trip(TaskRunStatus::Running);
    law_task_run_status_text_round_trip(TaskRunStatus::Retrying);
    law_task_run_status_text_round_trip(TaskRunStatus::Succeeded);
    law_task_run_status_text_round_trip(TaskRunStatus::Failed);
    law_task_run_status_text_round_trip(TaskRunStatus::Cancelling);
    law_task_run_status_text_round_trip(TaskRunStatus::Cancelled);
    law_task_run_status_text_round_trip(TaskRunStatus::Skipped);
}

/// The text of each `EventType` value is the name of the value, and that text
/// parses back to the value: a fixed table, one row per value.
pub proof fn law_event_type_text_table()
    ensures
        EventType::DefinitionRegistered.text() == "DefinitionRegistered"@,
        EventType::DefinitionUpdated.text() == "DefinitionUpdated"@,
        EventType::DefinitionDeregistered.text() == "DefinitionDeregistered"@,
        EventType::RunEnqueued.text() == "RunEnqueued"@,
        EventType::RunDequeued.text() == "RunDequeued"@,
        EventType::RunStarting.text() == "RunStarting"@,
        EventType::RunStart.text() == "RunStart"@,
        EventType::RunSuccess.text() == "RunSuccess"@,
        EventType::RunFailure.text() == "RunFailure"@,
        EventType::RunCanceling.text() == "RunCanceling"@,
        EventType::RunCanceled.text() == "RunCanceled"@,
        EventType::TaskPending.text() == "TaskPending"@,
        EventType::TaskQueued.text() == "TaskQueued"@,
        EventType::TaskStart.text() == "TaskStart"@,
        EventType::TaskSuccess.text() == "TaskSuccess"@,
        EventType::TaskFailure.text() == "TaskFailure"@,
        EventType::TaskSkipped.text() == "TaskSkipped"@,
        EventType::TaskCancelled.text() == "TaskCancelled"@,
        EventType::TaskReadyToRetry.text() == "TaskReadyToRetry"@,
        EventType::TaskInput.text() == "TaskInput"@,
        EventType::TaskOutput.text() == "TaskOutput"@,
        EventType::TaskExpectationResult.text() == "TaskExpectationResult"@,
        EventType::EngineEvent.text() == "EngineEvent"@,
        EventType::EngineInitFailure.text() == "EngineInitFailure"@,
        EventType::parse("DefinitionRegistered"@) == Some(EventType::DefinitionRegistered),
        EventType::parse("DefinitionUpdated"@) == Some(EventType::DefinitionUpdated),
        EventType::parse("DefinitionDeregistered"@) == Some(EventType::DefinitionDeregistered),
        EventType::parse("RunEnqueued"@) == Some(EventType::RunEnqueued),
        EventType::parse("RunDequeued"@) == Some(EventType::RunDequeued),
        EventType::parse("RunStarting"@) == Some(EventType::RunStarting),
        EventType::parse("RunStart"@) == Some(EventType::RunStart),
        EventType::parse("RunSuccess"@) == Some(EventType::RunSuccess),
        EventType::parse("RunFailure"@) == Some(EventType::RunFailure),
        EventType::parse("RunCanceling"@) == Some(EventType::RunCanceling),
        EventType::parse("RunCanceled"@) == Some(EventType::RunCanceled),
        EventType::parse("TaskPending"@) == Some(EventType::TaskPending),
        EventType::parse("TaskQueued"@) == Some(EventType::TaskQueued),
        EventType::parse("TaskStart"@) == Some(EventType::TaskStart),
        EventType::parse("TaskSuccess"@) == Some(EventType::TaskSuccess),
        EventType::parse("TaskFailure"@) == Some(EventType::TaskFailure),
        EventType::parse("TaskSkipped"@) == Some(EventType::TaskSkipped),
        EventType::parse("TaskCancelled"@) == Some(EventType::TaskCancelled),
        EventType::parse("TaskReadyToRetry"@) == Some(EventType::TaskReadyToRetry),
        EventType::parse("TaskInput"@) == Some(EventType::TaskInput),
        EventType::parse("TaskOutput"@) == Some(EventType::TaskOutput),
        EventType::parse("TaskExpectationResult"@) == Some(EventType::TaskExpectationResult),
        EventType::parse("EngineEvent"@) == Some(EventType::EngineEvent),
        EventType::parse("EngineInitFailure"@) == Some(EventType::EngineInitFailure),
{
    law_event_type_text_round_trip(EventType::DefinitionRegistered);
    law_event_type_text_round_trip(EventType::DefinitionUpdated);
    law_event_type_text_round_trip(EventType::DefinitionDeregistered);
    law_event_type_text_round_trip(EventType::RunEnqueued);
    law_event_type_text_round_trip(EventType::RunDequeued);
    law_event_type_text_round_trip(EventType::RunStarting);
    law_event_type_text_round_trip(EventType::RunStart);
    law_event_type_text_round_trip(EventType::RunSuccess);
    law_event_type_text_round_trip(EventType::RunFailure);
    law_event_type_text_round_trip(EventType::RunCanceling);
    law_event_type_text_round_trip(EventType::RunCanceled);
    law_event_type_text_round_trip(EventType::TaskPending);
    law_event_type_text_round_trip(EventType::TaskQueued);
    law_event_type_text_round_trip(EventType::TaskStart);
    law_event_type_text_round_trip(EventType::TaskSuccess);
    law_event_type_text_round_trip(EventType::TaskFailure);
    law_event_type_text_round_trip(EventType::TaskSkipped);
    law_event_type_text_round_trip(EventType::TaskCancelled);
    law_event_type_text_round_trip(EventType::TaskReadyToRetry);
    law_event_type_text_round_trip(EventType::TaskInput);
    law_event_type_text_round_trip(EventType::TaskOutput);
    law_event_type_text_round_trip(EventType::TaskExpectationResult);
    law_event_type_text_round_trip(EventType::EngineEvent);
    law_event_type_text_round_trip(EventType::EngineInitFailure);
}

/// The snake-case text of each `EventType` value is the name of the value in
/// upper case with words joined by underscores, and it parses back to the
/// value: a fixed table, one row per value.
pub proof fn law_event_type_snake_text_table()
    ensures
        EventType::DefinitionRegistered.snake_text() == "DEFINITION_REGISTERED"@,
        EventType::DefinitionUpdated.snake_text() == "DEFINITION_UPDATED"@,
        EventType::DefinitionDeregistered.snake_text() == "DEFINITION_DEREGISTERED"@,
        EventType::RunEnqueued.snake_text() == "RUN_ENQUEUED"@,
        EventType::RunDequeued.snake_text() == "RUN_DEQUEUED"@,
        EventType::RunStarting.snake_text() == "RUN_STARTING"@,
        EventType::RunStart.snake_text() == "RUN_START"@,
        EventType::RunSuccess.snake_text() == "RUN_SUCCESS"@,
        EventType::RunFailure.snake_text() == "RUN_FAILURE"@,
        EventType::RunCanceling.snake_text() == "RUN_CANCELING"@,
        EventType::RunCanceled.snake_text() == "RUN_CANCELED"@,
        EventType::TaskPending.snake_text() == "TASK_PENDING"@,
        EventType::TaskQueued.snake_text() == "TASK_QUEUED"@,
        EventType::TaskStart.snake_text() == "TASK_START"@,
        EventType::TaskSuccess.snake_text() == "TASK_SUCCESS"@,
        EventType::TaskFailure.snake_text() == "TASK_FAILURE"@,
        EventType::TaskSkipped.snake_text() == "TASK_SKIPPED"@,
        EventType::TaskCancelled.snake_text() == "TASK_CANCELLED"@,
        EventType::TaskReadyToRetry.snake_text() == "TASK_READY_TO_RETRY"@,
        EventType::TaskInput.snake_text() == "TASK_INPUT"@,
        EventType::TaskOutput.snake_text() == "TASK_OUTPUT"@,
        EventType::TaskExpectationResult.snake_text() == "TASK_EXPECTATION_RESULT"@,
        EventType::EngineEvent.snake_text() == "ENGINE_EVENT"@,
        EventType::EngineInitFailure.snake_text() == "ENGINE_INIT_FAILURE"@,
        EventType::parse("DEFINITION_REGISTERED"@) == Some(EventType::DefinitionRegistered),
        EventType::parse("DEFINITION_UPDATED"@) == Some(EventType::DefinitionUpdated),
        EventType::parse("DEFINITION_DEREGISTERED"@) == Some(EventType::DefinitionDeregistered),
        EventType::parse("RUN_ENQUEUED"@) == Some(EventType::RunEnqueued),
        EventType::parse("RUN_DEQUEUED"@) == Some(EventType::RunDequeued),
        EventType::parse("RUN_STARTING"@) == Some(EventType::RunStarting),
        EventType::parse("RUN_START"@) == Some(EventType::RunStart),
        EventType::parse("RUN_SUCCESS"@) == Some(EventType::RunSuccess),
        EventType::parse("RUN_FAILURE"@) == Some(EventType::RunFailure),
        EventType::parse("RUN_CANCELING"@) == Some(EventType::RunCanceling),
        EventType::parse("RUN_CANCELED"@) == Some(EventType::RunCanceled),
        EventType::parse("TASK_PENDING"@) == Some(EventType::TaskPending),
        EventType::parse("TASK_QUEUED"@) == Some(EventType::TaskQueued),
        EventType::parse("TASK_START"@) == Some(EventType::TaskStart),
        EventType::parse("TASK_SUCCESS"@) == Some(EventType::TaskSuccess),
        EventType::parse("TASK_FAILURE"@) == Some(EventType::TaskFailure),
        EventType::parse("TASK_SKIPPED"@) == Some(EventType::TaskSkipped),
        EventType::parse("TASK_CANCELLED"@) == Some(EventType::TaskCancelled),
        EventType::parse("TASK_READY_TO_RETRY"@) == Some(EventType::TaskReadyToRetry),
        EventType::parse("TASK_INPUT"@) == Some(EventType::TaskInput),
        EventType::parse("TASK_OUTPUT"@) == Some(EventType::TaskOutput),
        EventType::parse("TASK_EXPECTATION_RESULT"@) == Some(EventType::TaskExpectationResult),
        EventType::parse("ENGINE_EVENT"@) == Some(EventType::EngineEvent),
        EventType::parse("ENGINE_INIT_FAILURE"@) == Some(EventType::EngineInitFailure),
{
    law_event_type_text_round_trip(EventType::DefinitionRegistered);
    law_event_type_text_round_trip(EventType::DefinitionUpdated);
    law_event_type_text_round_trip(EventType::DefinitionDeregistered);
    law_event_type_text_round_trip(EventType::RunEnqueued);
    law_event_type_text_round_trip(EventType::RunDequeued);
    law_event_type_text_round_trip(EventType::RunStarting);
    law_event_type_text_round_trip(EventType::RunStart);
    law_event_type_text_round_trip(EventType::RunSuccess);
    law_event_type_text_round_trip(EventType::RunFailure);
    law_event_type_text_round_trip(EventType::RunCanceling);
    law_event_type_text_round_trip(EventType::RunCanceled);
    law_event_type_text_round_trip(EventType::TaskPending);
    law_event_type_text_round_trip(EventType::TaskQueued);
    law_event_type_text_round_trip(EventType::TaskStart);
    law_event_type_text_round_trip(EventType::TaskSuccess);
    law_event_type_text_round_trip(EventType::TaskFailure);
    law_event_type_text_round_trip(EventType::TaskSkipped);
    law_event_type_text_round_trip(EventType::TaskCancelled);
    law_event_type_text_round_trip(EventType::TaskReadyToRetry);
    law_event_type_text_round_trip(EventType::TaskInput);
    law_event_type_text_round_trip(EventType::TaskOutput);
    law_event_type_text_round_trip(EventType::TaskExpectationResult);
    law_event_type_text_round_trip(EventType::EngineEvent);
    law_event_type_text_round_trip(EventType::EngineInitFailure);
}

} // verus!
