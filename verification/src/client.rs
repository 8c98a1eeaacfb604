//! How the validator's client reads the signer's answers.
//!
//! Each answer either carries the requested value (as BCS bytes, decoded by
//! the caller), or a refusal, which becomes the corresponding safety-rules
//! error, or nothing at all, which is an internal error.

use vstd::prelude::*;

use crate::error::{is_decoded_error, proto_error_to_error, Error};
use crate::operation::Operation;
use crate::proto::{
    ConsensusState, ConsensusStateReply, InitializeReply, OrderVoteReply, SignatureReply, VoteReply,
};

verus! {

/// The text of the error for an answer that carries nothing.
pub open spec fn empty_response_text(operation: Operation) -> Seq<char> {
    "Empty response from "@ + operation.spec_name()
}

/// The error for an answer to `operation` that carries nothing.
pub fn empty_response_error(operation: Operation) -> (e: Error)
    ensures
        e matches Error::InternalError(m) && m@ == empty_response_text(operation),
{
    let mut text = String::from_str("Empty response from ");
    text.append(operation.name());
    Error::InternalError(text)
}

/// The signer's consensus state from an answer to a state request.
pub fn consensus_state_from_reply(result: Option<ConsensusStateReply>) -> (r: Result<
    ConsensusState,
    Error,
>)
    ensures
        match result {
            Some(ConsensusStateReply::State(s)) => r == Ok::<ConsensusState, Error>(s),
            Some(ConsensusStateReply::Error(p)) => r matches Err(e) && is_decoded_error(
                e,
                p.error_type@,
                p.message@,
            ),
            None => r matches Err(e) && e matches Error::InternalError(m) && m@
                == empty_response_text(Operation::ConsensusState),
        },
{
    match result {
        Some(ConsensusStateReply::State(s)) => Ok(s),
        Some(ConsensusStateReply::Error(p)) => Err(proto_error_to_error(&p)),
        None => Err(empty_response_error(Operation::ConsensusState)),
    }
}

/// Whether the signer accepted an initialisation.
pub fn initialize_from_reply(result: Option<InitializeReply>) -> (r: Result<(), Error>)
    ensures
        match result {
            Some(InitializeReply::Success(_)) => r is Ok,
            Some(InitializeReply::Error(p)) => r matches Err(e) && is_decoded_error(
                e,
                p.error_type@,
                p.message@,
            ),
            None => r matches Err(e) && e matches Error::InternalError(m) && m@
                == empty_response_text(Operation::Initialize),
        },
{
    match result {
        Some(InitializeReply::Success(_)) => Ok(()),
        Some(InitializeReply::Error(p)) => Err(proto_error_to_error(&p)),
        None => Err(empty_response_error(Operation::Initialize)),
    }
}

/// The signature bytes from an answer to `operation` (a proposal, timeout
/// or commit-vote signing).
pub fn signature_from_reply(operation: Operation, result: Option<SignatureReply>) -> (r: Result<
    Vec<u8>,
    Error,
>)
    ensures
        match result {
            Some(SignatureReply::Signature(b)) => r == Ok::<Vec<u8>, Error>(b),
            Some(SignatureReply::Error(p)) => r matches Err(e) && is_decoded_error(
                e,
                p.error_type@,
                p.message@,
            ),
            None => r matches Err(e) && e matches Error::InternalError(m) && m@
                == empty_response_text(operation),
        },
{
    match result {
        Some(SignatureReply::Signature(b)) => Ok(b),
        Some(SignatureReply::Error(p)) => Err(proto_error_to_error(&p)),
        None => Err(empty_response_error(operation)),
    }
}

/// The vote bytes from an answer to a vote request.
pub fn vote_from_reply(result: Option<VoteReply>) -> (r: Result<Vec<u8>, Error>)
    ensures
        match result {
            Some(VoteReply::Vote(b)) => r == Ok::<Vec<u8>, Error>(b),
            Some(VoteReply::Error(p)) => r matches Err(e) && is_decoded_error(
                e,
                p.error_type@,
                p.message@,
            ),
            None => r matches Err(e) && e matches Error::InternalError(m) && m@
                == empty_response_text(Operation::ConstructAndSignVoteTwoChain),
        },
{
    match result {
        Some(VoteReply::Vote(b)) => Ok(b),
        Some(VoteReply::Error(p)) => Err(proto_error_to_error(&p)),
        None => Err(empty_response_error(Operation::ConstructAndSignVoteTwoChain)),
    }
}

/// The order-vote bytes from an answer to an order-vote request.
pub fn order_vote_from_reply(result: Option<OrderVoteReply>) -> (r: Result<Vec<u8>, Error>)
    ensures
        match result {
            Some(OrderVoteReply::OrderVote(b)) => r == Ok::<Vec<u8>, Error>(b),
            Some(OrderVoteReply::Error(p)) => r matches Err(e) && is_decoded_error(
                e,
                p.error_type@,
                p.message@,
            ),
            None => r matches Err(e) && e matches Error::InternalError(m) && m@
                == empty_response_text(Operation::ConstructAndSignOrderVote),
        },
{
    match result {
        Some(OrderVoteReply::OrderVote(b)) => Ok(b),
        Some(OrderVoteReply::Error(p)) => Err(proto_error_to_error(&p)),
        None => Err(empty_response_error(Operation::ConstructAndSignOrderVote)),
    }
}

/// The safety data a validator keeps: the rounds it voted and locked on,
/// its last vote (as BCS bytes) and the highest round it timed out on.
#[derive(Clone, Debug, PartialEq, Eq)]
pub struct SafetyData {
    pub epoch: u64,
    pub last_voted_round: u64,
    pub preferred_round: u64,
    pub one_chain_round: u64,
    pub last_vote: Option<Vec<u8>>,
    pub highest_timeout_round: u64,
}

/// The safety data a client reports from the signer's consensus state. The
/// wire carries neither the one-chain round, which is taken to be the
/// preferred round, nor the last vote, nor the highest timeout round, which
/// is taken to be zero.
pub fn safety_data_from_state(state: &ConsensusState) -> (d: SafetyData)
    ensures
        d.epoch == state.epoch,
        d.last_voted_round == state.last_voted_round,
        d.preferred_round == state.preferred_round,
        d.one_chain_round == state.preferred_round,
        d.last_vote is None,
        d.highest_timeout_round == 0,
{
    SafetyData {
        epoch: state.epoch,
        last_voted_round: state.last_voted_round,
        preferred_round: state.preferred_round,
        one_chain_round: state.preferred_round,
        last_vote: None,
        highest_timeout_round: 0,
    }
}

} // verus!
