use aptos_remote_signer::client::{
    consensus_state_from_reply, initialize_from_reply, order_vote_from_reply,
    safety_data_from_state, signature_from_reply, vote_from_reply,
};
use aptos_remote_signer::config::RemoteSignerConfig;
use aptos_remote_signer::error::{error_to_proto, proto_error_to_error, Error};
use aptos_remote_signer::operation::Operation;
use aptos_remote_signer::proto::{
    ConsensusState, ConsensusStateReply, Empty, ErrorResponse, InitializeReply, OrderVoteReply,
    SignatureReply, VoteReply,
};
use aptos_remote_signer::retry::{Retry, RetryStep};

#[test]
fn test_proto_error_to_error_not_initialized() {
    let proto_err = ErrorResponse {
        error_type: "NotInitialized".to_string(),
        message: "not initialized yet".to_string(),
    };
    match proto_error_to_error(&proto_err) {
        Error::NotInitialized(msg) => assert_eq!(msg, "not initialized yet"),
        other => panic!("Expected NotInitialized, got {:?}", other),
    }
}

#[test]
fn test_proto_error_to_error_serialization() {
    let proto_err = ErrorResponse {
        error_type: "SerializationError".to_string(),
        message: "failed to serialize".to_string(),
    };
    match proto_error_to_error(&proto_err) {
        Error::SerializationError(msg) => assert_eq!(msg, "failed to serialize"),
        other => panic!("Expected SerializationError, got {:?}", other),
    }
}

#[test]
fn test_proto_error_to_error_invalid_qc() {
    let proto_err = ErrorResponse {
        error_type: "InvalidQuorumCertificate".to_string(),
        message: "bad qc".to_string(),
    };
    match proto_error_to_error(&proto_err) {
        Error::InvalidQuorumCertificate(msg) => assert_eq!(msg, "bad qc"),
        other => panic!("Expected InvalidQuorumCertificate, got {:?}", other),
    }
}

#[test]
fn test_proto_error_to_error_invalid_proposal() {
    let proto_err = ErrorResponse {
        error_type: "InvalidProposal".to_string(),
        message: "bad proposal".to_string(),
    };
    match proto_error_to_error(&proto_err) {
        Error::InvalidProposal(msg) => assert_eq!(msg, "bad proposal"),
        other => panic!("Expected InvalidProposal, got {:?}", other),
    }
}

#[test]
fn test_proto_error_to_error_unknown() {
    let proto_err = ErrorResponse {
        error_type: "SomeUnknownError".to_string(),
        message: "unknown error message".to_string(),
    };
    match proto_error_to_error(&proto_err) {
        Error::InternalError(msg) => {
            assert!(msg.contains("SomeUnknownError"));
            assert!(msg.contains("unknown error message"));
        },
        other => panic!("Expected InternalError, got {:?}", other),
    }
}

#[test]
fn proto_error_to_error_matches_prefixes_and_drops_rounds() {
    let round = ErrorResponse {
        error_type: "IncorrectLastVotedRound".to_string(),
        message: "Provided round, 3, is incompatible with last voted round, 4".to_string(),
    };
    assert_eq!(proto_error_to_error(&round), Error::IncorrectLastVotedRound(0, 0));
    let preferred = ErrorResponse {
        error_type: "IncorrectPreferredRoundExtra".to_string(),
        message: String::new(),
    };
    assert_eq!(proto_error_to_error(&preferred), Error::IncorrectPreferredRound(0, 0));
    let missing = ErrorResponse {
        error_type: "VoteProposalSignatureNotFound".to_string(),
        message: "whatever".to_string(),
    };
    assert_eq!(proto_error_to_error(&missing), Error::VoteProposalSignatureNotFound);
    let unknown = ErrorResponse { error_type: "Epoch".to_string(), message: "m".to_string() };
    assert_eq!(proto_error_to_error(&unknown), Error::InternalError("Epoch: m".to_string()));
}

#[test]
fn refusals_round_trip() {
    let original = Error::SerializationError("bad bytes".to_string());
    assert_eq!(
        proto_error_to_error(&error_to_proto(&original)),
        Error::SerializationError("Serialization error: bad bytes".to_string())
    );
    let vote = Error::IncorrectPreferredRound(8, 9);
    assert_eq!(proto_error_to_error(&error_to_proto(&vote)), Error::IncorrectPreferredRound(0, 0));
    let other = Error::IncorrectEpoch(1, 2);
    assert_eq!(
        proto_error_to_error(&error_to_proto(&other)),
        Error::InternalError(
            "IncorrectEpoch: Provided epoch, 1, does not match expected epoch, 2".to_string()
        )
    );
}

fn refusal() -> ErrorResponse {
    ErrorResponse { error_type: "InvalidProposal".to_string(), message: "nope".to_string() }
}

#[test]
fn replies_are_read_back() {
    assert_eq!(
        signature_from_reply(Operation::SignProposal, Some(SignatureReply::Signature(vec![5, 6]))),
        Ok(vec![5, 6])
    );
    assert_eq!(
        signature_from_reply(Operation::SignCommitVote, Some(SignatureReply::Error(refusal()))),
        Err(Error::InvalidProposal("nope".to_string()))
    );
    assert_eq!(
        signature_from_reply(Operation::SignTimeoutWithQc, None),
        Err(Error::InternalError("Empty response from sign_timeout_with_qc".to_string()))
    );
    assert_eq!(vote_from_reply(Some(VoteReply::Vote(vec![1]))), Ok(vec![1]));
    assert_eq!(
        vote_from_reply(None),
        Err(Error::InternalError("Empty response from construct_and_sign_vote_two_chain".to_string()))
    );
    assert_eq!(order_vote_from_reply(Some(OrderVoteReply::OrderVote(vec![2]))), Ok(vec![2]));
    assert_eq!(
        order_vote_from_reply(Some(OrderVoteReply::Error(refusal()))),
        Err(Error::InvalidProposal("nope".to_string()))
    );
    assert_eq!(
        order_vote_from_reply(None),
        Err(Error::InternalError("Empty response from construct_and_sign_order_vote".to_string()))
    );
    assert_eq!(initialize_from_reply(Some(InitializeReply::Success(Empty {}))), Ok(()));
    assert_eq!(
        initialize_from_reply(None),
        Err(Error::InternalError("Empty response from initialize".to_string()))
    );
    let state = ConsensusState {
        epoch: 3,
        last_voted_round: 10,
        preferred_round: 8,
        waypoint: vec![0, 1],
        in_validator_set: true,
    };
    assert_eq!(
        consensus_state_from_reply(Some(ConsensusStateReply::State(state.clone()))),
        Ok(state.clone())
    );
    assert_eq!(
        consensus_state_from_reply(None),
        Err(Error::InternalError("Empty response from consensus_state".to_string()))
    );
    let data = safety_data_from_state(&state);
    assert_eq!(data.epoch, 3);
    assert_eq!(data.last_voted_round, 10);
    assert_eq!(data.preferred_round, 8);
    assert_eq!(data.one_chain_round, 8);
    assert_eq!(data.last_vote, None);
    assert_eq!(data.highest_timeout_round, 0);
}

fn config(max_retries: u32, initial_backoff_ms: u64) -> RemoteSignerConfig {
    RemoteSignerConfig {
        server_address: "http://localhost:8080".to_string(),
        tls_config: None,
        allow_insecure: true,
        connect_timeout_ms: 5000,
        request_timeout_ms: 10000,
        max_retries,
        initial_backoff_ms,
    }
}

/// Fails every try and returns the pauses taken and the final error.
fn run_failures(config: &RemoteSignerConfig) -> (Vec<u64>, Error) {
    let mut retry = Retry::new(config);
    let mut pauses = vec![];
    loop {
        match retry.on_failure(Operation::SignProposal, "status: Unavailable") {
            RetryStep::RetryAfter { next, attempt, pause_ms } => {
                assert_eq!(attempt as usize, pauses.len() + 1);
                pauses.push(pause_ms);
                retry = next;
            },
            RetryStep::GiveUp(e) => return (pauses, e),
        }
    }
}

#[test]
fn retries_double_the_pause_up_to_thirty_seconds() {
    let (pauses, error) = run_failures(&config(10, 5000));
    assert_eq!(pauses, vec![5000, 10000, 20000, 30000, 30000, 30000, 30000, 30000, 30000, 30000]);
    assert_eq!(
        error,
        Error::InternalError(
            "Remote signer sign_proposal failed after 11 attempts: status: Unavailable".to_string()
        )
    );
}

#[test]
fn retries_with_default_settings() {
    let (pauses, error) = run_failures(&config(3, 100));
    assert_eq!(pauses, vec![100, 200, 400]);
    assert_eq!(
        error,
        Error::InternalError(
            "Remote signer sign_proposal failed after 4 attempts: status: Unavailable".to_string()
        )
    );
}

#[test]
fn zero_retries_tries_once() {
    let (pauses, error) = run_failures(&config(0, 100));
    assert!(pauses.is_empty());
    assert_eq!(
        error,
        Error::InternalError(
            "Remote signer sign_proposal failed after 1 attempts: status: Unavailable".to_string()
        )
    );
    let (pauses, error) = run_failures(&config(1, 100));
    assert_eq!(pauses, vec![100]);
    assert_eq!(
        error,
        Error::InternalError(
            "Remote signer sign_proposal failed after 2 attempts: status: Unavailable".to_string()
        )
    );
}

#[test]
fn a_long_first_pause_is_capped_too() {
    let (pauses, _) = run_failures(&config(2, 50_000));
    assert_eq!(pauses, vec![30_000, 30_000]);
    let (pauses, _) = run_failures(&config(2, 60_000));
    assert_eq!(pauses, vec![30_000, 30_000]);
    let (pauses, _) = run_failures(&config(2, u64::MAX));
    assert_eq!(pauses, vec![30_000, 30_000]);
    let (pauses, _) = run_failures(&config(3, 30_000));
    assert_eq!(pauses, vec![30_000, 30_000, 30_000]);
    let (pauses, _) = run_failures(&config(2, 20_000));
    assert_eq!(pauses, vec![20_000, 30_000]);
}
