use aptos_remote_signer::error::{error_to_proto, Error};
use aptos_remote_signer::operation::Operation;
use aptos_remote_signer::service::{client_address, SigningStats};

#[test]
fn test_error_to_proto_not_initialized() {
    let err = Error::NotInitialized("test error".to_string());
    let proto_err = error_to_proto(&err);
    assert_eq!(proto_err.error_type, "NotInitialized");
    assert!(proto_err.message.contains("test error"));
}

#[test]
fn test_error_to_proto_serialization_error() {
    let err = Error::SerializationError("bad data".to_string());
    let proto_err = error_to_proto(&err);
    assert_eq!(proto_err.error_type, "SerializationError");
    assert!(proto_err.message.contains("bad data"));
}

#[test]
fn test_error_to_proto_internal_error() {
    let err = Error::InternalError("something went wrong".to_string());
    let proto_err = error_to_proto(&err);
    assert_eq!(proto_err.error_type, "InternalError");
    assert!(proto_err.message.contains("something went wrong"));
}

#[test]
fn test_error_to_proto_invalid_qc() {
    let err = Error::InvalidQuorumCertificate("qc error".to_string());
    let proto_err = error_to_proto(&err);
    assert_eq!(proto_err.error_type, "InvalidQuorumCertificate");
    assert!(proto_err.message.contains("qc error"));
}

#[test]
fn test_error_to_proto_invalid_proposal() {
    let err = Error::InvalidProposal("proposal error".to_string());
    let proto_err = error_to_proto(&err);
    assert_eq!(proto_err.error_type, "InvalidProposal");
    assert!(proto_err.message.contains("proposal error"));
}

#[test]
fn error_type_is_the_debug_name_before_the_payload() {
    let errors = vec![
        Error::IncorrectEpoch(1, 2),
        Error::InvalidLedgerInfo,
        Error::NotSafeToVote(5, 4, Some(3)),
        Error::InconsistentExecutionResult("a".to_string(), "b".to_string()),
        Error::VoteProposalSignatureNotFound,
        Error::WaypointOutOfDate(1, 2, 3, 4),
    ];
    for err in errors {
        let debug = format!("{:?}", err);
        let expected = debug.split('(').next().unwrap().to_string();
        assert_eq!(err.error_type(), expected);
    }
}

#[test]
fn error_messages() {
    assert_eq!(
        Error::IncorrectEpoch(10, 11).message(),
        "Provided epoch, 10, does not match expected epoch, 11"
    );
    assert_eq!(
        Error::NotInitialized("safety_data".to_string()).message(),
        "safety_data is not set, SafetyRules is not initialized"
    );
    assert_eq!(
        Error::NotSafeToVote(7, 5, None).message(),
        "Does not satisfy 2-chain voting rule. Round 7, Quorum round 5, TC round None"
    );
    assert_eq!(
        Error::NotSafeToVote(7, 5, Some(6)).message(),
        "Does not satisfy 2-chain voting rule. Round 7, Quorum round 5, TC round Some(6)"
    );
    assert_eq!(
        Error::NotSafeToTimeout(9, 0, 18446744073709551615, 1).message(),
        "Does not satisfy 2-chain timeout rule. Round 9, Quorum round 0, TC round 18446744073709551615, one-chain round 1"
    );
    assert_eq!(Error::VoteProposalSignatureNotFound.message(), "Vote proposal missing expected signature");
}

#[test]
fn signing_stats_count_each_outcome_once() {
    let mut stats = SigningStats::default();
    let signed: Result<Vec<u8>, _> = stats.settle(Operation::SignProposal, Ok(vec![1, 2]));
    assert_eq!(signed, Ok(vec![1, 2]));
    let refused: Result<u8, _> =
        stats.settle(Operation::ConstructAndSignVoteTwoChain, Err(Error::InvalidProposal("x".to_string())));
    let refusal = refused.unwrap_err();
    assert_eq!(refusal.error_type, "InvalidProposal");
    assert_eq!(refusal.message, "Invalid proposal: x");
    let state: Result<u8, _> = stats.settle(Operation::ConsensusState, Ok(3));
    assert_eq!(state, Ok(3));
    stats.record(Operation::ConstructAndSignVoteTwoChain, true);
    stats.record(Operation::ConstructAndSignOrderVote, true);
    stats.record(Operation::SignTimeoutWithQc, true);
    stats.record(Operation::SignCommitVote, true);
    stats.record(Operation::Initialize, true);
    stats.record(Operation::Initialize, false);
    assert_eq!(
        stats,
        SigningStats {
            proposals_signed: 1,
            votes_signed: 1,
            order_votes_signed: 1,
            timeouts_signed: 1,
            commits_signed: 1,
            errors: 2,
        }
    );
    assert_eq!(
        stats.summary(),
        "Signing stats: proposals=1, votes=1, order_votes=1, timeouts=1, commits=1, errors=2"
    );
}

#[test]
fn signing_stats_wrap_around() {
    let mut stats = SigningStats { errors: u64::MAX, ..SigningStats::default() };
    stats.record(Operation::SignProposal, false);
    assert_eq!(stats.errors, 0);
}

#[test]
fn client_address_defaults_to_unknown() {
    assert_eq!(client_address(Some("10.0.0.1:4000".to_string())), "10.0.0.1:4000");
    assert_eq!(client_address(None), "unknown");
}
