//! Messages of the `aptos.safety_rules.v1` signing protocol.
//!
//! Every consensus value travels as BCS bytes inside these messages; the
//! messages themselves only say which operation is asked for and whether it
//! was answered by a value or by an error.

use vstd::prelude::*;

verus! {

/// A message with no content.
#[derive(Clone, Debug, PartialEq, Eq)]
pub struct Empty {}

/// A refused request: the kind of safety-rules error and its text.
#[derive(Clone, Debug, PartialEq, Eq)]
pub struct ErrorResponse {
    pub error_type: String,
    pub message: String,
}

/// The signer's consensus state.
#[derive(Clone, Debug, PartialEq, Eq)]
pub struct ConsensusState {
    pub epoch: u64,
    pub last_voted_round: u64,
    pub preferred_round: u64,
    /// BCS bytes of the waypoint.
    pub waypoint: Vec<u8>,
    pub in_validator_set: bool,
}

#[derive(Clone, Debug, PartialEq, Eq)]
pub struct ConsensusStateRequest {}

/// Answer to a consensus-state request.
#[derive(Clone, Debug, PartialEq, Eq)]
pub enum ConsensusStateReply {
    State(ConsensusState),
    Error(ErrorResponse),
}

#[derive(Clone, Debug, PartialEq, Eq)]
pub struct ConsensusStateResponse {
    pub result: Option<ConsensusStateReply>,
}

#[derive(Clone, Debug, PartialEq, Eq)]
pub struct InitializeRequest {
    /// BCS bytes of the epoch change proof.
    pub epoch_change_proof: Vec<u8>,
}

/// Answer to an initialize request.
#[derive(Clone, Debug, PartialEq, Eq)]
pub enum InitializeReply {
    Success(Empty),
    Error(ErrorResponse),
}

#[derive(Clone, Debug, PartialEq, Eq)]
pub struct InitializeResponse {
    pub result: Option<InitializeReply>,
}

#[derive(Clone, Debug, PartialEq, Eq)]
pub struct SignProposalRequest {
    /// BCS bytes of the block data.
    pub block_data: Vec<u8>,
}

/// Answer carrying a signature (proposal, timeout and commit-vote signing).
#[derive(Clone, Debug, PartialEq, Eq)]
pub enum SignatureReply {
    /// BCS bytes of the signature.
    Signature(Vec<u8>),
    Error(ErrorResponse),
}

#[derive(Clone, Debug, PartialEq, Eq)]
pub struct SignProposalResponse {
    pub result: Option<SignatureReply>,
}

#[derive(Clone, Debug, PartialEq, Eq)]
pub struct SignTimeoutWithQcRequest {
    /// BCS bytes of the two-chain timeout.
    pub timeout: Vec<u8>,
    /// BCS bytes of the timeout certificate, if any.
    pub timeout_cert: Option<Vec<u8>>,
}

#[derive(Clone, Debug, PartialEq, Eq)]
pub struct SignTimeoutWithQcResponse {
    pub result: Option<SignatureReply>,
}

#[derive(Clone, Debug, PartialEq, Eq)]
pub struct ConstructAndSignVoteTwoChainRequest {
    /// BCS bytes of the vote proposal.
    pub vote_proposal: Vec<u8>,
    /// BCS bytes of the timeout certificate, if any.
    pub timeout_cert: Option<Vec<u8>>,
}

/// Answer carrying a vote.
#[derive(Clone, Debug, PartialEq, Eq)]
pub enum VoteReply {
    /// BCS bytes of the vote.
    Vote(Vec<u8>),
    Error(ErrorResponse),
}

#[derive(Clone, Debug, PartialEq, Eq)]
pub struct ConstructAndSignVoteTwoChainResponse {
    pub result: Option<VoteReply>,
}

#[derive(Clone, Debug, PartialEq, Eq)]
pub struct ConstructAndSignOrderVoteRequest {
    /// BCS bytes of the order vote proposal.
    pub order_vote_proposal: Vec<u8>,
}

/// Answer carrying an order vote.
#[derive(Clone, Debug, PartialEq, Eq)]
pub enum OrderVoteReply {
    /// BCS bytes of the order vote.
    OrderVote(Vec<u8>),
    Error(ErrorResponse),
}

#[derive(Clone, Debug, PartialEq, Eq)]
pub struct ConstructAndSignOrderVoteResponse {
    pub result: Option<OrderVoteReply>,
}

#[derive(Clone, Debug, PartialEq, Eq)]
pub struct SignCommitVoteRequest {
    /// BCS bytes of the ledger info with signatures.
    pub ledger_info: Vec<u8>,
    /// BCS bytes of the new ledger info.
    pub new_ledger_info: Vec<u8>,
}

#[derive(Clone, Debug, PartialEq, Eq)]
pub struct SignCommitVoteResponse {
    pub result: Option<SignatureReply>,
}

} // verus!
