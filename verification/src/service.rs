//! Decisions of the signing service: which counter an answered request
//! moves, and what a refusal looks like on the wire.

use vstd::prelude::*;

use crate::error::Error;
use crate::error::error_to_proto;
use crate::operation::Operation;
use crate::proto::ErrorResponse;
use crate::text::{decimal, write_decimal};

verus! {

/// Counts of the requests the service has answered.
#[derive(Clone, Copy, Debug, PartialEq, Eq)]
pub struct SigningStats {
    pub proposals_signed: u64,
    pub votes_signed: u64,
    pub order_votes_signed: u64,
    pub timeouts_signed: u64,
    pub commits_signed: u64,
    pub errors: u64,
}

/// One more, wrapping around at the largest `u64` as an atomic increment
/// does.
pub open spec fn bump(x: u64) -> u64 {
    if x == u64::MAX {
        0
    } else {
        (x + 1) as u64
    }
}

fn bump_exec(x: u64) -> (y: u64)
    ensures
        y == bump(x),
{
    if x == u64::MAX {
        0
    } else {
        x + 1
    }
}

impl Default for SigningStats {
    fn default() -> (s: Self)
        ensures
            s == (SigningStats {
                proposals_signed: 0,
                votes_signed: 0,
                order_votes_signed: 0,
                timeouts_signed: 0,
                commits_signed: 0,
                errors: 0,
            }),
    {
        SigningStats {
            proposals_signed: 0,
            votes_signed: 0,
            order_votes_signed: 0,
            timeouts_signed: 0,
            commits_signed: 0,
            errors: 0,
        }
    }
}

impl SigningStats {
    /// The counts after a request for `operation` was answered: a failure
    /// moves the error count; a success moves the count of its kind of
    /// signature, and moves nothing for a state query or an initialisation.
    pub open spec fn recorded(self, operation: Operation, succeeded: bool) -> SigningStats {
        if !succeeded {
            SigningStats { errors: bump(self.errors), ..self }
        } else {
            match operation {
                Operation::SignProposal => SigningStats {
                    proposals_signed: bump(self.proposals_signed),
                    ..self
                },
                Operation::ConstructAndSignVoteTwoChain => SigningStats {
                    votes_signed: bump(self.votes_signed),
                    ..self
                },
                Operation::ConstructAndSignOrderVote => SigningStats {
                    order_votes_signed: bump(self.order_votes_signed),
                    ..self
                },
                Operation::SignTimeoutWithQc => SigningStats {
                    timeouts_signed: bump(self.timeouts_signed),
                    ..self
                },
                Operation::SignCommitVote => SigningStats {
                    commits_signed: bump(self.commits_signed),
                    ..self
                },
                Operation::ConsensusState | Operation::Initialize => self,
            }
        }
    }

    /// Counts an answered request (see `recorded`).
    pub fn record(&mut self, operation: Operation, succeeded: bool)
        ensures
            *final(self) == old(self).recorded(operation, succeeded),
    {
        if !succeeded {
            self.errors = bump_exec(self.errors);
        } else {
            match operation {
                Operation::SignProposal => {
                    self.proposals_signed = bump_exec(self.proposals_signed);
                },
                Operation::ConstructAndSignVoteTwoChain => {
                    self.votes_signed = bump_exec(self.votes_signed);
                },
                Operation::ConstructAndSignOrderVote => {
                    self.order_votes_signed = bump_exec(self.order_votes_signed);
                },
                Operation::SignTimeoutWithQc => {
                    self.timeouts_signed = bump_exec(self.timeouts_signed);
                },
                Operation::SignCommitVote => {
                    self.commits_signed = bump_exec(self.commits_signed);
                },
                Operation::ConsensusState | Operation::Initialize => {},
            }
        }
    }

    /// Settles the outcome of `operation` in the safety rules: counts it,
    /// and turns a safety-rules error into the refusal sent back.
    pub fn settle<T>(&mut self, operation: Operation, outcome: Result<T, Error>) -> (r: Result<
        T,
        ErrorResponse,
    >)
        ensures
            match outcome {
                Ok(v) => r == Ok::<T, ErrorResponse>(v) && *final(self) == old(self).recorded(
                    operation,
                    true,
                ),
                Err(e) => r matches Err(p) && p.error_type@ == e.kind_name() && p.message@
                    == e.display_text() && *final(self) == old(self).recorded(operation, false),
            },
    {
        match outcome {
            Ok(v) => {
                self.record(operation, true);
                Ok(v)
            },
            Err(e) => {
                self.record(operation, false);
                Err(error_to_proto(&e))
            },
        }
    }

    /// The one-line summary of the counts that the service logs.
    pub open spec fn summary_text(self) -> Seq<char> {
        "Signing stats: proposals="@ + decimal(self.proposals_signed as nat) + ", votes="@
            + decimal(self.votes_signed as nat) + ", order_votes="@ + decimal(
            self.order_votes_signed as nat,
        ) + ", timeouts="@ + decimal(self.timeouts_signed as nat) + ", commits="@ + decimal(
            self.commits_signed as nat,
        ) + ", errors="@ + decimal(self.errors as nat)
    }

    /// The one-line summary of the counts (see `summary_text`).
    pub fn summary(&self) -> (s: String)
        ensures
            s@ == self.summary_text(),
    {
        let mut s = String::from_str("Signing stats: proposals=");
        write_decimal(&mut s, self.proposals_signed);
        s.append(", votes=");
        write_decimal(&mut s, self.votes_signed);
        s.append(", order_votes=");
        write_decimal(&mut s, self.order_votes_signed);
        s.append(", timeouts=");
        write_decimal(&mut s, self.timeouts_signed);
        s.append(", commits=");
        write_decimal(&mut s, self.commits_signed);
        s.append(", errors=");
        write_decimal(&mut s, self.errors);
        s
    }
}

/// The client's address for logs: the address the request came from, or
/// `unknown`.
pub fn client_address(remote: Option<String>) -> (s: String)
    ensures
        match remote {
            Some(a) => s == a,
            None => s@ == "unknown"@,
        },
{
    match remote {
        Some(a) => a,
        None => String::from_str("unknown"),
    }
}

/// The sum of all counts.
pub open spec fn total(s: SigningStats) -> int {
    s.proposals_signed + s.votes_signed + s.order_votes_signed + s.timeouts_signed
        + s.commits_signed + s.errors
}

/// Every answered request moves the counts by exactly one, except a
/// successful state query or initialisation, which moves nothing (as long as
/// no count is at the largest `u64`, where it wraps around to zero); a
/// failure moves only the error count, a success never moves it.
pub proof fn lemma_record_counts_once(s: SigningStats, operation: Operation, succeeded: bool)
    requires
        s.proposals_signed < u64::MAX,
        s.votes_signed < u64::MAX,
        s.order_votes_signed < u64::MAX,
        s.timeouts_signed < u64::MAX,
        s.commits_signed < u64::MAX,
        s.errors < u64::MAX,
    ensures
        total(s.recorded(operation, succeeded)) == total(s) + if succeeded && (
        operation is ConsensusState || operation is Initialize) {
            0int
        } else {
            1int
        },
        !succeeded ==> s.recorded(operation, succeeded).errors == s.errors + 1,
        succeeded ==> s.recorded(operation, succeeded).errors == s.errors,
{
}

/// What each answer counts: a signed proposal, vote, order vote, timeout or
/// commit vote raises its own count by one (`proposals_signed`,
/// `votes_signed`, `order_votes_signed`, `timeouts_signed`,
/// `commits_signed`) and leaves every other count as it was; a failure
/// raises only `errors`; a successful state query or initialisation
/// changes nothing.
pub proof fn lemma_each_answer_moves_its_own_count(s: SigningStats, op: Operation)
    ensures
        s.recorded(Operation::SignProposal, true) == (SigningStats {
            proposals_signed: bump(s.proposals_signed),
            votes_signed: s.votes_signed,
            order_votes_signed: s.order_votes_signed,
            timeouts_signed: s.timeouts_signed,
            commits_signed: s.commits_signed,
            errors: s.errors,
        }),
        s.recorded(Operation::ConstructAndSignVoteTwoChain, true) == (SigningStats {
            proposals_signed: s.proposals_signed,
            votes_signed: bump(s.votes_signed),
            order_votes_signed: s.order_votes_signed,
            timeouts_signed: s.timeouts_signed,
            commits_signed: s.commits_signed,
            errors: s.errors,
        }),
        s.recorded(Operation::ConstructAndSignOrderVote, true) == (SigningStats {
            proposals_signed: s.proposals_signed,
            votes_signed: s.votes_signed,
            order_votes_signed: bump(s.order_votes_signed),
            timeouts_signed: s.timeouts_signed,
            commits_signed: s.commits_signed,
            errors: s.errors,
        }),
        s.recorded(Operation::SignTimeoutWithQc, true) == (SigningStats {
            proposals_signed: s.proposals_signed,
            votes_signed: s.votes_signed,
            order_votes_signed: s.order_votes_signed,
            timeouts_signed: bump(s.timeouts_signed),
            commits_signed: s.commits_signed,
            errors: s.errors,
        }),
        s.recorded(Operation::SignCommitVote, true) == (SigningStats {
            proposals_signed: s.proposals_signed,
            votes_signed: s.votes_signed,
            order_votes_signed: s.order_votes_signed,
            timeouts_signed: s.timeouts_signed,
            commits_signed: bump(s.commits_signed),
            errors: s.errors,
        }),
        s.recorded(Operation::ConsensusState, true) == s,
        s.recorded(Operation::Initialize, true) == s,
        s.recorded(op, false) == (SigningStats {
            proposals_signed: s.proposals_signed,
            votes_signed: s.votes_signed,
            order_votes_signed: s.order_votes_signed,
            timeouts_signed: s.timeouts_signed,
            commits_signed: s.commits_signed,
            errors: bump(s.errors),
        }),
{
}

} // verus!
