//! The GraphQL front of the coordinator: what it answers at each step of a
//! pipeline submission.

use vstd::prelude::*;

use crate::error::Error;
use crate::ids::{hyphenated_text, uuid_parse, uuid_parse_outcome, uuid_string};

verus! {

/// The root of the GraphQL queries.
pub struct QueryRoot;

/// The root of the GraphQL mutations.
pub struct MutationRoot;

/// What the store answered when asked for a pipeline definition.
#[derive(Clone, Copy, Debug, PartialEq, Eq, Structural)]
pub enum DefinitionLookup {
    Found,
    Missing,
    Failed,
}

/// What became of a submit command sent to the coordinator.
pub enum CoordinatorReply {
    /// The command could not be sent.
    Unsent,
    /// The coordinator created the run with this id.
    Accepted(u128),
    /// The coordinator refused the submission.
    Refused(Error),
    /// The coordinator dropped the command without answering.
    Lost,
}

impl MutationRoot {
    /// The id of the pipeline definition to submit, or the answer when the
    /// text is no UUID.
    pub fn parse_definition_id(pipeline_definition_id: &str) -> (r: Result<u128, String>)
        ensures
            match uuid_parse_outcome(pipeline_definition_id@) {
                Ok(id) => r is Ok && r->Ok_0 == id,
                Err(_) => r is Err && r->Err_0@
                    == "Internal server error: Failed to parse pipeline definition id."@,
            },
    {
        match uuid_parse(pipeline_definition_id) {
            Ok(id) => Ok(id),
            Err(_) => Err(
                String::from_str("Internal server error: Failed to parse pipeline definition id."),
            ),
        }
    }

    /// The answer that ends a submission after the definition was looked
    /// up, if the lookup ends it: none when the definition was found.
    pub fn lookup_refusal(pipeline_definition_id: &str, lookup: DefinitionLookup) -> (r: Option<
        String,
    >)
        ensures
            match lookup {
                DefinitionLookup::Found => r is None,
                DefinitionLookup::Missing => r is Some && r->Some_0@ == "Pipeline definition with ID '"@
                    + pipeline_definition_id@ + "' not found."@,
                DefinitionLookup::Failed => r is Some && r->Some_0@
                    == "Failed to verify pipeline definition: "@ + pipeline_definition_id@
                    + ". Please try again later."@,
            },
    {
        match lookup {
            DefinitionLookup::Found => None,
            DefinitionLookup::Missing => Some(
                String::from_str("Pipeline definition with ID '").concat(
                    pipeline_definition_id,
                ).concat("' not found."),
            ),
            DefinitionLookup::Failed => Some(
                String::from_str("Failed to verify pipeline definition: ").concat(
                    pipeline_definition_id,
                ).concat(". Please try again later."),
            ),
        }
    }

    /// The answer to a submission, from what became of the command sent to
    /// the coordinator: the new run's id, or why there is none.
    pub fn submission_reply(reply: CoordinatorReply) -> (r: Result<String, String>)
        ensures
            match reply {
                CoordinatorReply::Unsent => r is Err && r->Err_0@
                    == "Failed to submit pipeline: Coordinator service may be unavailable."@,
                CoordinatorReply::Accepted(run_id) => r is Ok && r->Ok_0@ == hyphenated_text(run_id),
                CoordinatorReply::Refused(e) => r is Err && exists|detail: Seq<char>|
                    r->Err_0@ == "Pipeline submission failed: "@ + e.displayed(detail),
                CoordinatorReply::Lost => r is Err && r->Err_0@
                    == "No response from pipeline coordinator. The submission may have failed or is in an unknown state."@,
            },
    {
        match reply {
            CoordinatorReply::Unsent => Err(
                String::from_str(
                    "Failed to submit pipeline: Coordinator service may be unavailable.",
                ),
            ),
            CoordinatorReply::Accepted(run_id) => Ok(uuid_string(run_id)),
            CoordinatorReply::Refused(e) => {
                let shown = e.message();
                let ghost detail = choose|detail: Seq<char>| shown@ == e.displayed(detail);
                let r = String::from_str("Pipeline submission failed: ").concat(shown.as_str());
                assert(r@ == "Pipeline submission failed: "@ + e.displayed(detail));
                Err(r)
            },
            CoordinatorReply::Lost => Err(
                String::from_str(
                    "No response from pipeline coordinator. The submission may have failed or is in an unknown state.",
                ),
            ),
        }
    }
}

} // verus!
