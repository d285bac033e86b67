use iodine::error::Error;

#[test]
fn errors_display_their_kind_and_text() {
    assert_eq!(Error::Database("x".into()).message(), "Database Error: x");
    assert_eq!(Error::InvalidInput("x".into()).message(), "Invalid Input: x");
    assert_eq!(Error::StateTransition("x".into()).message(), "State Transition Error: x");
    assert_eq!(Error::GrpcComm("x".into()).message(), "gRPC Communication Error: x");
    assert_eq!(Error::TaskExecution("x".into()).message(), "Task Execution Error: x");
    assert_eq!(Error::ChannelComm("x".into()).message(), "Channel Communication Error: x");
    assert_eq!(Error::Config("x".into()).message(), "Configuration Error: x");
    assert_eq!(Error::Internal("x".into()).message(), "Internal Error: x");
    assert_eq!(Error::TerminateSignal.message(), "Terminate Signal Error");
    assert_eq!(Error::Conflict("x".into()).message(), "Conflict Error: x");
    assert_eq!(
        Error::NotFound { resource_type: "Run".into(), resource_id: "7".into() }.message(),
        "Resource Not Found: Run with ID 7"
    );
}

#[test]
fn serialization_errors_show_the_json_error() {
    let json_err = serde_json::from_str::<serde_json::Value>("{").unwrap_err();
    let expected = format!("Serialization Error: {}", json_err);
    assert_eq!(Error::Serialization(json_err).message(), expected);
}
