//! The error type shared by all parts of the scheduler.

use vstd::prelude::*;
use serde_json::Error as JsonError;

verus! {

/// `serde_json::Error`, carried by `Error::Serialization`.
#[verifier::external_type_specification]
#[verifier::external_body]
pub struct ExJsonError(JsonError);

/// `serde_json::Value`, carried as opaque metadata.
#[verifier::external_type_specification]
#[verifier::external_body]
pub struct ExJsonValue(serde_json::Value);

/// Errors of the scheduler.
#[derive(Debug)]
pub enum Error {
    Database(String),
    Serialization(JsonError),
    NotFound { resource_type: String, resource_id: String },
    InvalidInput(String),
    StateTransition(String),
    GrpcComm(String),
    TaskExecution(String),
    ChannelComm(String),
    Config(String),
    Internal(String),
    TerminateSignal,
    Conflict(String),
}

impl Error {
    /// The text that the error displays. `detail` stands for the text of a
    /// `serde_json` error, which only the `Serialization` variant shows.
    pub open spec fn displayed(&self, detail: Seq<char>) -> Seq<char> {
        match self {
            Error::Database(m) => "Database Error: "@ + m@,
            Error::Serialization(_) => "Serialization Error: "@ + detail,
            Error::NotFound { resource_type, resource_id } => "Resource Not Found: "@ + resource_type@
                + " with ID "@ + resource_id@,
            Error::InvalidInput(m) => "Invalid Input: "@ + m@,
            Error::StateTransition(m) => "State Transition Error: "@ + m@,
            Error::GrpcComm(m) => "gRPC Communication Error: "@ + m@,
            Error::TaskExecution(m) => "Task Execution Error: "@ + m@,
            Error::ChannelComm(m) => "Channel Communication Error: "@ + m@,
            Error::Config(m) => "Configuration Error: "@ + m@,
            Error::Internal(m) => "Internal Error: "@ + m@,
            Error::TerminateSignal => "Terminate Signal Error"@,
            Error::Conflict(m) => "Conflict Error: "@ + m@,
        }
    }

    /// Whether this is an internal error with the text `text`.
    pub open spec fn is_internal_with(&self, text: Seq<char>) -> bool {
        self matches Error::Internal(m) && m@ == text
    }

    /// The text that the error displays.
    pub fn message(&self) -> (s: String)
        ensures
            exists|detail: Seq<char>| s@ == self.displayed(detail),
    {
        let ghost mut shown: Seq<char> = Seq::empty();
        let s = match self {
            Error::Database(m) => String::from_str("Database Error: ").concat(m.as_str()),
            Error::Serialization(e) => {
                let detail = json_error_text(e);
                proof {
                    shown = detail@;
                }
                String::from_str("Serialization Error: ").concat(detail.as_str())
            },
            Error::NotFound { resource_type, resource_id } => String::from_str(
                "Resource Not Found: ",
            ).concat(resource_type.as_str()).concat(" with ID ").concat(resource_id.as_str()),
            Error::InvalidInput(m) => String::from_str("Invalid Input: ").concat(m.as_str()),
            Error::StateTransition(m) => String::from_str("State Transition Error: ").concat(
                m.as_str(),
            ),
            Error::GrpcComm(m) => String::from_str("gRPC Communication Error: ").concat(m.as_str()),
            Error::TaskExecution(m) => String::from_str("Task Execution Error: ").concat(
                m.as_str(),
            ),
            Error::ChannelComm(m) => String::from_str("Channel Communication Error: ").concat(
                m.as_str(),
            ),
            Error::Config(m) => String::from_str("Configuration Error: ").concat(m.as_str()),
            Error::Internal(m) => String::from_str("Internal Error: ").concat(m.as_str()),
            Error::TerminateSignal => String::from_str("Terminate Signal Error"),
            Error::Conflict(m) => String::from_str("Conflict Error: ").concat(m.as_str()),
        };
        assert(s@ == self.displayed(shown));
        s
    }
}

/// `serde_json::Error`'s `Display`: the text of a JSON error. Nothing is
/// stated of it.
#[verifier::external_body]
fn json_error_text(e: &JsonError) -> String {
    e.to_string()
}

/// An error reported by a worker.
#[derive(Debug)]
pub struct WorkerError {
    pub error_type: String,
    pub message: String,
    pub stack_trace: Option<String>,
    pub metadata: Option<serde_json::Value>,
}

} // verus!
