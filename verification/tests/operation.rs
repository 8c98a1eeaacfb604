use aptos_remote_signer::operation::Operation;

const ALL: [Operation; 7] = [
    Operation::ConsensusState,
    Operation::Initialize,
    Operation::SignProposal,
    Operation::SignTimeoutWithQc,
    Operation::ConstructAndSignVoteTwoChain,
    Operation::ConstructAndSignOrderVote,
    Operation::SignCommitVote,
];

#[test]
fn test_operation_paths() {
    assert_eq!(
        Operation::ConsensusState.path(),
        "/aptos.safety_rules.v1.SafetyRulesService/ConsensusState"
    );
    assert_eq!(
        Operation::ConstructAndSignVoteTwoChain.path(),
        "/aptos.safety_rules.v1.SafetyRulesService/ConstructAndSignVoteTwoChain"
    );
    assert_eq!(Operation::SignTimeoutWithQc.method_name(), "SignTimeoutWithQc");
    assert_eq!(Operation::SignCommitVote.name(), "sign_commit_vote");
}

#[test]
fn test_route_round_trip() {
    for op in ALL {
        assert_eq!(Operation::from_path(op.path()), Some(op));
    }
}

#[test]
fn test_unknown_paths_are_not_routed() {
    assert_eq!(Operation::from_path(""), None);
    assert_eq!(Operation::from_path("/aptos.safety_rules.v1.SafetyRulesService/"), None);
    assert_eq!(Operation::from_path("/aptos.safety_rules.v1.SafetyRulesService/SignVote"), None);
    assert_eq!(
        Operation::from_path("/aptos.safety_rules.v1.SafetyRulesService/ConsensusStateX"),
        None
    );
    assert_eq!(Operation::from_path("/other.Service/ConsensusState"), None);
    assert_eq!(Operation::from_path("ConsensusState"), None);
}
