use iodine::error::Error;
use iodine::gql::{CoordinatorReply, DefinitionLookup, MutationRoot};

#[test]
fn a_definition_id_must_be_a_uuid() {
    assert_eq!(
        MutationRoot::parse_definition_id("67e55044-10b1-426f-9247-bb680e5fe0c8"),
        Ok(0x67e55044_10b1_426f_9247_bb680e5fe0c8)
    );
    assert_eq!(
        MutationRoot::parse_definition_id("pipeline-1"),
        Err("Internal server error: Failed to parse pipeline definition id.".to_string())
    );
}

#[test]
fn the_lookup_ends_the_submission_unless_the_definition_exists() {
    let id = "67e55044-10b1-426f-9247-bb680e5fe0c8";
    assert_eq!(MutationRoot::lookup_refusal(id, DefinitionLookup::Found), None);
    assert_eq!(
        MutationRoot::lookup_refusal(id, DefinitionLookup::Missing).as_deref(),
        Some("Pipeline definition with ID '67e55044-10b1-426f-9247-bb680e5fe0c8' not found.")
    );
    assert_eq!(
        MutationRoot::lookup_refusal(id, DefinitionLookup::Failed).as_deref(),
        Some("Failed to verify pipeline definition: 67e55044-10b1-426f-9247-bb680e5fe0c8. Please try again later.")
    );
}

#[test]
fn the_submission_answers_with_the_run_id_or_the_reason() {
    assert_eq!(
        MutationRoot::submission_reply(CoordinatorReply::Accepted(0x1f)),
        Ok("00000000-0000-0000-0000-00000000001f".to_string())
    );
    assert_eq!(
        MutationRoot::submission_reply(CoordinatorReply::Unsent),
        Err("Failed to submit pipeline: Coordinator service may be unavailable.".to_string())
    );
    assert_eq!(
        MutationRoot::submission_reply(CoordinatorReply::Refused(Error::Internal(
            "Max launchers reached".to_string()
        ))),
        Err("Pipeline submission failed: Internal Error: Max launchers reached".to_string())
    );
    assert_eq!(
        MutationRoot::submission_reply(CoordinatorReply::Lost),
        Err("No response from pipeline coordinator. The submission may have failed or is in an unknown state.".to_string())
    );
}
