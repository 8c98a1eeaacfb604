use aptos_remote_signer::proto::{ConsensusState, ErrorResponse};
use aptos_remote_signer::proto_json::{
    ConsensusStateBuilder, ConsensusStateEntry, ConsensusStateField, ErrorResponseBuilder,
    ErrorResponseField, JsonValue, ProtoJsonError,
};

fn sample() -> ConsensusState {
    ConsensusState {
        epoch: 12,
        last_voted_round: 0,
        preferred_round: 7,
        waypoint: vec![1, 2, 3, 4],
        in_validator_set: true,
    }
}

#[test]
fn consensus_state_writes_only_set_fields() {
    let fields = sample().json_fields();
    assert_eq!(
        fields,
        vec![
            (ConsensusStateField::Epoch, JsonValue::Text("12".to_string())),
            (ConsensusStateField::PreferredRound, JsonValue::Text("7".to_string())),
            (ConsensusStateField::Waypoint, JsonValue::Text("AQIDBA==".to_string())),
            (ConsensusStateField::InValidatorSet, JsonValue::Flag(true)),
        ]
    );
    let names: Vec<&str> = fields.iter().map(|(f, _)| f.json_name()).collect();
    assert_eq!(names, vec!["epoch", "preferredRound", "waypoint", "inValidatorSet"]);
    let empty = ConsensusState {
        epoch: 0,
        last_voted_round: 0,
        preferred_round: 0,
        waypoint: vec![],
        in_validator_set: false,
    };
    assert!(empty.json_fields().is_empty());
}

#[test]
fn consensus_state_round_trip() {
    let state = sample();
    let read = ConsensusState::from_json_entries(state.json_entries());
    assert_eq!(read, Ok(state));
}

#[test]
fn consensus_state_field_names() {
    assert_eq!(
        ConsensusStateField::from_json_name("last_voted_round"),
        Some(ConsensusStateField::LastVotedRound)
    );
    assert_eq!(
        ConsensusStateField::from_json_name("lastVotedRound"),
        Some(ConsensusStateField::LastVotedRound)
    );
    assert_eq!(
        ConsensusStateField::from_json_name("in_validator_set"),
        Some(ConsensusStateField::InValidatorSet)
    );
    assert_eq!(ConsensusStateField::from_json_name("epoch"), Some(ConsensusStateField::Epoch));
    assert_eq!(ConsensusStateField::from_json_name("Epoch"), None);
    assert_eq!(ConsensusStateField::from_json_name("waypoints"), None);
}

#[test]
fn consensus_state_missing_fields_default_and_duplicates_are_refused() {
    let read = ConsensusState::from_json_entries(vec![ConsensusStateEntry::LastVotedRound(4)]);
    assert_eq!(
        read,
        Ok(ConsensusState {
            epoch: 0,
            last_voted_round: 4,
            preferred_round: 0,
            waypoint: vec![],
            in_validator_set: false,
        })
    );
    let twice = ConsensusState::from_json_entries(vec![
        ConsensusStateEntry::Epoch(1),
        ConsensusStateEntry::Waypoint(vec![9]),
        ConsensusStateEntry::Epoch(2),
        ConsensusStateEntry::Waypoint(vec![8]),
    ]);
    assert_eq!(twice, Err(ProtoJsonError::DuplicateField("epoch")));

    let mut builder = ConsensusStateBuilder::new();
    assert!(!builder.contains(ConsensusStateField::Waypoint));
    assert_eq!(builder.accept(ConsensusStateEntry::Waypoint(vec![3])), Ok(()));
    assert!(builder.contains(ConsensusStateField::Waypoint));
    assert_eq!(
        builder.accept(ConsensusStateEntry::Waypoint(vec![4])),
        Err(ProtoJsonError::DuplicateField("waypoint"))
    );
    assert_eq!(builder.finish().waypoint, vec![3]);
}

#[test]
fn error_response_fields() {
    let full = ErrorResponse { error_type: "InvalidProposal".to_string(), message: "m".to_string() };
    assert_eq!(
        full.json_fields(),
        vec![
            (ErrorResponseField::ErrorType, "InvalidProposal".to_string()),
            (ErrorResponseField::Message, "m".to_string()),
        ]
    );
    let only_message = ErrorResponse { error_type: String::new(), message: "m".to_string() };
    assert_eq!(only_message.json_fields(), vec![(ErrorResponseField::Message, "m".to_string())]);
    assert_eq!(ErrorResponseField::from_json_name("error_type"), Some(ErrorResponseField::ErrorType));
    assert_eq!(ErrorResponseField::from_json_name("errorType"), Some(ErrorResponseField::ErrorType));
    assert_eq!(ErrorResponseField::from_json_name("msg"), None);
    assert_eq!(ErrorResponseField::ErrorType.json_name(), "errorType");

    let mut builder = ErrorResponseBuilder::new();
    assert_eq!(builder.accept(ErrorResponseField::Message, "hello".to_string()), Ok(()));
    assert_eq!(
        builder.accept(ErrorResponseField::Message, "again".to_string()),
        Err(ProtoJsonError::DuplicateField("message"))
    );
    assert!(!builder.contains(ErrorResponseField::ErrorType));
    assert_eq!(
        builder.finish(),
        ErrorResponse { error_type: String::new(), message: "hello".to_string() }
    );
}

#[test]
fn error_response_json_round_trip() {
    let samples = [
        ErrorResponse { error_type: "InvalidProposal".to_string(), message: "bad round".to_string() },
        ErrorResponse { error_type: String::new(), message: "only a message".to_string() },
        ErrorResponse { error_type: "NotInitialized".to_string(), message: String::new() },
        ErrorResponse { error_type: String::new(), message: String::new() },
    ];
    for e in samples {
        assert_eq!(ErrorResponse::from_json_fields(e.json_fields()), Ok(e.clone()));
    }
}

#[test]
fn error_response_read_from_fields() {
    let read = ErrorResponse::from_json_fields(vec![
        (ErrorResponseField::Message, "m".to_string()),
        (ErrorResponseField::ErrorType, "t".to_string()),
    ]);
    assert_eq!(read, Ok(ErrorResponse { error_type: "t".to_string(), message: "m".to_string() }));
    let twice = ErrorResponse::from_json_fields(vec![
        (ErrorResponseField::ErrorType, "a".to_string()),
        (ErrorResponseField::Message, "m".to_string()),
        (ErrorResponseField::ErrorType, "b".to_string()),
    ]);
    assert_eq!(twice, Err(ProtoJsonError::DuplicateField("errorType")));
    assert_eq!(
        ErrorResponse::from_json_fields(Vec::new()),
        Ok(ErrorResponse { error_type: String::new(), message: String::new() })
    );
}
