//! Errors of the safety rules, and how a refused request travels on the wire.

use vstd::prelude::*;

use crate::proto::ErrorResponse;
use crate::text::{decimal, has_prefix, starts_with, write_decimal};

verus! {

/// Why the safety rules refused, or failed, an operation.
#[derive(Clone, Debug, PartialEq, Eq)]
pub enum Error {
    IncorrectEpoch(u64, u64),
    IncorrectRound(u64),
    IncorrectLastVotedRound(u64, u64),
    IncorrectPreferredRound(u64, u64),
    InvalidAccumulatorExtension(String),
    InvalidEpochChangeProof(String),
    InternalError(String),
    InvalidLedgerInfo,
    InvalidProposal(String),
    InvalidQuorumCertificate(String),
    NotInitialized(String),
    NotSafeForOrderVote(u64, u64),
    SecureStorageMissingDataError(String),
    SecureStorageUnexpectedError(String),
    SerializationError(String),
    ValidatorKeyNotFound(String),
    ValidatorNotInSet(String),
    VoteProposalSignatureNotFound,
    NotSafeToVote(u64, u64, Option<u64>),
    NotSafeToTimeout(u64, u64, u64, u64),
    InvalidTimeoutCertificate(String),
    InconsistentExecutionResult(String, String),
    InvalidOrderedLedgerInfo(String),
    WaypointOutOfDate(u64, u64, u64, u64),
    InvalidTimeout(String),
}

/// `Some(n)` or `None`, as `Option<u64>` prints itself for debugging.
pub open spec fn debug_option_u64(o: Option<u64>) -> Seq<char> {
    match o {
        Some(n) => "Some("@ + decimal(n as nat) + ")"@,
        None => "None"@,
    }
}

fn write_debug_option_u64(out: &mut String, o: Option<u64>)
    ensures
        final(out)@ == old(out)@ + debug_option_u64(o),
{
    match o {
        Some(n) => {
            out.append("Some(");
            write_decimal(out, n);
            out.append(")");
        },
        None => {
            out.append("None");
        },
    }
}

impl Error {
    /// The name of the variant: what the error's debug text shows before its
    /// first opening parenthesis.
    pub open spec fn kind_name(self) -> Seq<char> {
        match self {
            Error::IncorrectEpoch(..) => "IncorrectEpoch"@,
            Error::IncorrectRound(..) => "IncorrectRound"@,
            Error::IncorrectLastVotedRound(..) => "IncorrectLastVotedRound"@,
            Error::IncorrectPreferredRound(..) => "IncorrectPreferredRound"@,
            Error::InvalidAccumulatorExtension(..) => "InvalidAccumulatorExtension"@,
            Error::InvalidEpochChangeProof(..) => "InvalidEpochChangeProof"@,
            Error::InternalError(..) => "InternalError"@,
            Error::InvalidLedgerInfo => "InvalidLedgerInfo"@,
            Error::InvalidProposal(..) => "InvalidProposal"@,
            Error::InvalidQuorumCertificate(..) => "InvalidQuorumCertificate"@,
            Error::NotInitialized(..) => "NotInitialized"@,
            Error::NotSafeForOrderVote(..) => "NotSafeForOrderVote"@,
            Error::SecureStorageMissingDataError(..) => "SecureStorageMissingDataError"@,
            Error::SecureStorageUnexpectedError(..) => "SecureStorageUnexpectedError"@,
            Error::SerializationError(..) => "SerializationError"@,
            Error::ValidatorKeyNotFound(..) => "ValidatorKeyNotFound"@,
            Error::ValidatorNotInSet(..) => "ValidatorNotInSet"@,
            Error::VoteProposalSignatureNotFound => "VoteProposalSignatureNotFound"@,
            Error::NotSafeToVote(..) => "NotSafeToVote"@,
            Error::NotSafeToTimeout(..) => "NotSafeToTimeout"@,
            Error::InvalidTimeoutCertificate(..) => "InvalidTimeoutCertificate"@,
            Error::InconsistentExecutionResult(..) => "InconsistentExecutionResult"@,
            Error::InvalidOrderedLedgerInfo(..) => "InvalidOrderedLedgerInfo"@,
            Error::WaypointOutOfDate(..) => "WaypointOutOfDate"@,
            Error::InvalidTimeout(..) => "InvalidTimeout"@,
        }
    }

    /// The human-readable text of the error.
    pub open spec fn display_text(self) -> Seq<char> {
        match self {
            Error::IncorrectEpoch(a, b) => "Provided epoch, "@ + decimal(a as nat) + ", does not match expected epoch, "@ + decimal(b as nat),
            Error::IncorrectRound(a) => "block has next round that wraps around: "@ + decimal(a as nat),
            Error::IncorrectLastVotedRound(a, b) => "Provided round, "@ + decimal(a as nat) + ", is incompatible with last voted round, "@ + decimal(b as nat),
            Error::IncorrectPreferredRound(a, b) => "Provided round, "@ + decimal(a as nat) + ", is incompatible with preferred round, "@ + decimal(b as nat),
            Error::InvalidAccumulatorExtension(a) => "Unable to verify that the new tree extends the parent: "@ + a@,
            Error::InvalidEpochChangeProof(a) => "Invalid EpochChangeProof: "@ + a@,
            Error::InternalError(a) => "Internal error: "@ + a@,
            Error::InvalidLedgerInfo => "No next_epoch_state specified in the provided Ledger Info"@,
            Error::InvalidProposal(a) => "Invalid proposal: "@ + a@,
            Error::InvalidQuorumCertificate(a) => "Invalid QC: "@ + a@,
            Error::NotInitialized(a) => a@ + " is not set, SafetyRules is not initialized"@,
            Error::NotSafeForOrderVote(a, b) => "Does not satisfy order vote rule. Block Round "@ + decimal(a as nat) + ", Highest Timeout Round "@ + decimal(b as nat),
            Error::SecureStorageMissingDataError(a) => "Data not found in secure storage: "@ + a@,
            Error::SecureStorageUnexpectedError(a) => "Unexpected error returned by secure storage: "@ + a@,
            Error::SerializationError(a) => "Serialization error: "@ + a@,
            Error::ValidatorKeyNotFound(a) => "Validator key not found: "@ + a@,
            Error::ValidatorNotInSet(a) => "The validator is not in the validator set. Address not in set: "@ + a@,
            Error::VoteProposalSignatureNotFound => "Vote proposal missing expected signature"@,
            Error::NotSafeToVote(a, b, c) => "Does not satisfy 2-chain voting rule. Round "@ + decimal(a as nat) + ", Quorum round "@ + decimal(b as nat) + ", TC round "@ + debug_option_u64(c),
            Error::NotSafeToTimeout(a, b, c, d) => "Does not satisfy 2-chain timeout rule. Round "@ + decimal(a as nat) + ", Quorum round "@ + decimal(b as nat) + ", TC round "@ + decimal(c as nat) + ", one-chain round "@ + decimal(d as nat),
            Error::InvalidTimeoutCertificate(a) => "Invalid TC: "@ + a@,
            Error::InconsistentExecutionResult(a, b) => "Inconsistent Execution Result: Ordered BlockInfo doesn't match executed BlockInfo. Ordered: "@ + a@ + ", Executed: "@ + b@,
            Error::InvalidOrderedLedgerInfo(a) => "Invalid Ordered LedgerInfoWithSignatures: Empty or at least one of executed_state_id, version, or epoch_state are not dummy value: "@ + a@,
            Error::WaypointOutOfDate(a, b, c, d) => "Waypoint out of date: Previous waypoint version "@ + decimal(a as nat) + ", updated version "@ + decimal(b as nat) + ", current epoch "@ + decimal(c as nat) + ", provided epoch "@ + decimal(d as nat),
            Error::InvalidTimeout(a) => "Invalid Timeout: "@ + a@,
        }
    }

    /// The name of the variant (see `kind_name`).
    pub fn error_type(&self) -> (s: String)
        ensures
            s@ == self.kind_name(),
    {
        match self {
            Error::IncorrectEpoch(..) => String::from_str("IncorrectEpoch"),
            Error::IncorrectRound(..) => String::from_str("IncorrectRound"),
            Error::IncorrectLastVotedRound(..) => String::from_str("IncorrectLastVotedRound"),
            Error::IncorrectPreferredRound(..) => String::from_str("IncorrectPreferredRound"),
            Error::InvalidAccumulatorExtension(..) => String::from_str("InvalidAccumulatorExtension"),
            Error::InvalidEpochChangeProof(..) => String::from_str("InvalidEpochChangeProof"),
            Error::InternalError(..) => String::from_str("InternalError"),
            Error::InvalidLedgerInfo => String::from_str("InvalidLedgerInfo"),
            Error::InvalidProposal(..) => String::from_str("InvalidProposal"),
            Error::InvalidQuorumCertificate(..) => String::from_str("InvalidQuorumCertificate"),
            Error::NotInitialized(..) => String::from_str("NotInitialized"),
            Error::NotSafeForOrderVote(..) => String::from_str("NotSafeForOrderVote"),
            Error::SecureStorageMissingDataError(..) => String::from_str("SecureStorageMissingDataError"),
            Error::SecureStorageUnexpectedError(..) => String::from_str("SecureStorageUnexpectedError"),
            Error::SerializationError(..) => String::from_str("SerializationError"),
            Error::ValidatorKeyNotFound(..) => String::from_str("ValidatorKeyNotFound"),
            Error::ValidatorNotInSet(..) => String::from_str("ValidatorNotInSet"),
            Error::VoteProposalSignatureNotFound => String::from_str("VoteProposalSignatureNotFound"),
            Error::NotSafeToVote(..) => String::from_str("NotSafeToVote"),
            Error::NotSafeToTimeout(..) => String::from_str("NotSafeToTimeout"),
            Error::InvalidTimeoutCertificate(..) => String::from_str("InvalidTimeoutCertificate"),
            Error::InconsistentExecutionResult(..) => String::from_str("InconsistentExecutionResult"),
            Error::InvalidOrderedLedgerInfo(..) => String::from_str("InvalidOrderedLedgerInfo"),
            Error::WaypointOutOfDate(..) => String::from_str("WaypointOutOfDate"),
            Error::InvalidTimeout(..) => String::from_str("InvalidTimeout"),
        }
    }

    /// The human-readable text of the error (see `display_text`).
    pub fn message(&self) -> (s: String)
        ensures
            s@ == self.display_text(),
    {
        let mut s = String::new();
        match self {
            Error::IncorrectEpoch(a, b) => {
                s.append("Provided epoch, ");
                write_decimal(&mut s, *a);
                s.append(", does not match expected epoch, ");
                write_decimal(&mut s, *b);
            },
            Error::IncorrectRound(a) => {
                s.append("block has next round that wraps around: ");
                write_decimal(&mut s, *a);
            },
            Error::IncorrectLastVotedRound(a, b) => {
                s.append("Provided round, ");
                write_decimal(&mut s, *a);
                s.append(", is incompatible with last voted round, ");
                write_decimal(&mut s, *b);
            },
            Error::IncorrectPreferredRound(a, b) => {
                s.append("Provided round, ");
                write_decimal(&mut s, *a);
                s.append(", is incompatible with preferred round, ");
                write_decimal(&mut s, *b);
            },
            Error::InvalidAccumulatorExtension(a) => {
                s.append("Unable to verify that the new tree extends the parent: ");
                s.append(a.as_str());
            },
            Error::InvalidEpochChangeProof(a) => {
                s.append("Invalid EpochChangeProof: ");
                s.append(a.as_str());
            },
            Error::InternalError(a) => {
                s.append("Internal error: ");
                s.append(a.as_str());
            },
            Error::InvalidLedgerInfo => {
                s.append("No next_epoch_state specified in the provided Ledger Info");
            },
            Error::InvalidProposal(a) => {
                s.append("Invalid proposal: ");
                s.append(a.as_str());
            },
            Error::InvalidQuorumCertificate(a) => {
                s.append("Invalid QC: ");
                s.append(a.as_str());
            },
            Error::NotInitialized(a) => {
                s.append(a.as_str());
                s.append(" is not set, SafetyRules is not initialized");
            },
            Error::NotSafeForOrderVote(a, b) => {
                s.append("Does not satisfy order vote rule. Block Round ");
                write_decimal(&mut s, *a);
                s.append(", Highest Timeout Round ");
                write_decimal(&mut s, *b);
            },
            Error::SecureStorageMissingDataError(a) => {
                s.append("Data not found in secure storage: ");
                s.append(a.as_str());
            },
            Error::SecureStorageUnexpectedError(a) => {
                s.append("Unexpected error returned by secure storage: ");
                s.append(a.as_str());
            },
            Error::SerializationError(a) => {
                s.append("Serialization error: ");
                s.append(a.as_str());
            },
            Error::ValidatorKeyNotFound(a) => {
                s.append("Validator key not found: ");
                s.append(a.as_str());
            },
            Error::ValidatorNotInSet(a) => {
                s.append("The validator is not in the validator set. Address not in set: ");
                s.append(a.as_str());
            },
            Error::VoteProposalSignatureNotFound => {
                s.append("Vote proposal missing expected signature");
            },
            Error::NotSafeToVote(a, b, c) => {
                s.append("Does not satisfy 2-chain voting rule. Round ");
                write_decimal(&mut s, *a);
                s.append(", Quorum round ");
                write_decimal(&mut s, *b);
                s.append(", TC round ");
                write_debug_option_u64(&mut s, *c);
            },
            Error::NotSafeToTimeout(a, b, c, d) => {
                s.append("Does not satisfy 2-chain timeout rule. Round ");
                write_decimal(&mut s, *a);
                s.append(", Quorum round ");
                write_decimal(&mut s, *b);
                s.append(", TC round ");
                write_decimal(&mut s, *c);
                s.append(", one-chain round ");
                write_decimal(&mut s, *d);
            },
            Error::InvalidTimeoutCertificate(a) => {
                s.append("Invalid TC: ");
                s.append(a.as_str());
            },
            Error::InconsistentExecutionResult(a, b) => {
                s.append("Inconsistent Execution Result: Ordered BlockInfo doesn't match executed BlockInfo. Ordered: ");
                s.append(a.as_str());
                s.append(", Executed: ");
                s.append(b.as_str());
            },
            Error::InvalidOrderedLedgerInfo(a) => {
                s.append("Invalid Ordered LedgerInfoWithSignatures: Empty or at least one of executed_state_id, version, or epoch_state are not dummy value: ");
                s.append(a.as_str());
            },
            Error::WaypointOutOfDate(a, b, c, d) => {
                s.append("Waypoint out of date: Previous waypoint version ");
                write_decimal(&mut s, *a);
                s.append(", updated version ");
                write_decimal(&mut s, *b);
                s.append(", current epoch ");
                write_decimal(&mut s, *c);
                s.append(", provided epoch ");
                write_decimal(&mut s, *d);
            },
            Error::InvalidTimeout(a) => {
                s.append("Invalid Timeout: ");
                s.append(a.as_str());
            },
        }
        assert(s@ =~= self.display_text());
        s
    }
}

/// The error that a client rebuilds from a refused request with type `t` and
/// text `m`: the first of the known kinds whose name begins `t` is rebuilt
/// (carrying `m` where that kind carries a text, and zero rounds where it
/// carries rounds); any other type becomes an internal error whose text is
/// `t`, a colon, a space and `m`.
pub open spec fn is_decoded_error(r: Error, t: Seq<char>, m: Seq<char>) -> bool {
    if has_prefix(t, "NotInitialized"@) {
        r matches Error::NotInitialized(s) && s@ == m
    } else if has_prefix(t, "SerializationError"@) {
        r matches Error::SerializationError(s) && s@ == m
    } else if has_prefix(t, "IncorrectLastVotedRound"@) {
        r == Error::IncorrectLastVotedRound(0, 0)
    } else if has_prefix(t, "IncorrectPreferredRound"@) {
        r == Error::IncorrectPreferredRound(0, 0)
    } else if has_prefix(t, "InvalidQuorumCertificate"@) {
        r matches Error::InvalidQuorumCertificate(s) && s@ == m
    } else if has_prefix(t, "InvalidProposal"@) {
        r matches Error::InvalidProposal(s) && s@ == m
    } else if has_prefix(t, "VoteProposalSignatureNotFound"@) {
        r == Error::VoteProposalSignatureNotFound
    } else {
        r matches Error::InternalError(s) && s@ == t + ": "@ + m
    }
}

/// The refused request that answers `err`: its kind and its text.
pub fn error_to_proto(err: &Error) -> (r: ErrorResponse)
    ensures
        r.error_type@ == err.kind_name(),
        r.message@ == err.display_text(),
{
    ErrorResponse { error_type: err.error_type(), message: err.message() }
}

/// The error that a client reports for a refused request.
pub fn proto_error_to_error(err: &ErrorResponse) -> (r: Error)
    ensures
        is_decoded_error(r, err.error_type@, err.message@),
{
    let error_type = err.error_type.as_str();
    let message = err.message.clone();
    if starts_with(error_type, "NotInitialized") {
        Error::NotInitialized(message)
    } else if starts_with(error_type, "SerializationError") {
        Error::SerializationError(message)
    } else if starts_with(error_type, "IncorrectLastVotedRound") {
        Error::IncorrectLastVotedRound(0, 0)
    } else if starts_with(error_type, "IncorrectPreferredRound") {
        Error::IncorrectPreferredRound(0, 0)
    } else if starts_with(error_type, "InvalidQuorumCertificate") {
        Error::InvalidQuorumCertificate(message)
    } else if starts_with(error_type, "InvalidProposal") {
        Error::InvalidProposal(message)
    } else if starts_with(error_type, "VoteProposalSignatureNotFound") {
        Error::VoteProposalSignatureNotFound
    } else {
        let mut text = String::from_str(error_type);
        text.append(": ");
        text.append(message.as_str());
        Error::InternalError(text)
    }
}

/// Whether a client recognises the kind of `e` when it comes back as a
/// refused request.
pub open spec fn is_known_kind(e: Error) -> bool {
    ||| e is NotInitialized
    ||| e is SerializationError
    ||| e is IncorrectLastVotedRound
    ||| e is IncorrectPreferredRound
    ||| e is InvalidQuorumCertificate
    ||| e is InvalidProposal
    ||| e is VoteProposalSignatureNotFound
}

/// A text that differs from `p` at a position within both is not begun by `p`.
proof fn lemma_differs_at(t: Seq<char>, p: Seq<char>, i: int)
    requires
        0 <= i < t.len(),
        i < p.len(),
        t[i] != p[i],
    ensures
        !has_prefix(t, p),
{
    if has_prefix(t, p) {
        assert(t.subrange(0, p.len() as int)[i] == t[i]);
    }
}

/// A kind name that differs from each known kind's name at the given
/// position begins none of them.
proof fn lemma_no_known_prefix(
    t: Seq<char>,
    i0: int,
    i1: int,
    i2: int,
    i3: int,
    i4: int,
    i5: int,
    i6: int,
)
    requires
        0 <= i0 < t.len() && i0 < "NotInitialized"@.len() && t[i0] != "NotInitialized"@[i0],
        0 <= i1 < t.len() && i1 < "SerializationError"@.len() && t[i1]
            != "SerializationError"@[i1],
        0 <= i2 < t.len() && i2 < "IncorrectLastVotedRound"@.len() && t[i2]
            != "IncorrectLastVotedRound"@[i2],
        0 <= i3 < t.len() && i3 < "IncorrectPreferredRound"@.len() && t[i3]
            != "IncorrectPreferredRound"@[i3],
        0 <= i4 < t.len() && i4 < "InvalidQuorumCertificate"@.len() && t[i4]
            != "InvalidQuorumCertificate"@[i4],
        0 <= i5 < t.len() && i5 < "InvalidProposal"@.len() && t[i5] != "InvalidProposal"@[i5],
        0 <= i6 < t.len() && i6 < "VoteProposalSignatureNotFound"@.len() && t[i6]
            != "VoteProposalSignatureNotFound"@[i6],
    ensures
        !has_prefix(t, "NotInitialized"@),
        !has_prefix(t, "SerializationError"@),
        !has_prefix(t, "IncorrectLastVotedRound"@),
        !has_prefix(t, "IncorrectPreferredRound"@),
        !has_prefix(t, "InvalidQuorumCertificate"@),
        !has_prefix(t, "InvalidProposal"@),
        !has_prefix(t, "VoteProposalSignatureNotFound"@),
{
    lemma_differs_at(t, "NotInitialized"@, i0);
    lemma_differs_at(t, "SerializationError"@, i1);
    lemma_differs_at(t, "IncorrectLastVotedRound"@, i2);
    lemma_differs_at(t, "IncorrectPreferredRound"@, i3);
    lemma_differs_at(t, "InvalidQuorumCertificate"@, i4);
    lemma_differs_at(t, "InvalidProposal"@, i5);
    lemma_differs_at(t, "VoteProposalSignatureNotFound"@, i6);
}

/// A refusal sent by the service and read back by the client keeps its kind
/// whenever the client knows that kind: errors that carry a text come back
/// carrying the full text of the original error, the two round errors come
/// back with zero rounds, and a missing vote signature comes back as such.
/// Every other kind comes back as an internal error that names the original
/// kind and holds its text.
pub proof fn lemma_refusal_round_trip(e: Error, r: Error)
    requires
        is_decoded_error(r, e.kind_name(), e.display_text()),
    ensures
        e is NotInitialized ==> (r matches Error::NotInitialized(s) && s@ == e.display_text()),
        e is SerializationError ==> (r matches Error::SerializationError(s) && s@ == e.display_text()),
        e is IncorrectLastVotedRound ==> r == Error::IncorrectLastVotedRound(0, 0),
        e is IncorrectPreferredRound ==> r == Error::IncorrectPreferredRound(0, 0),
        e is InvalidQuorumCertificate ==> (r matches Error::InvalidQuorumCertificate(s) && s@ == e.display_text()),
        e is InvalidProposal ==> (r matches Error::InvalidProposal(s) && s@ == e.display_text()),
        e is VoteProposalSignatureNotFound ==> r == Error::VoteProposalSignatureNotFound,
        !is_known_kind(e) ==> (r matches Error::InternalError(s) && s@ == e.kind_name() + ": "@ + e.display_text()),
{
    reveal_strlit("NotInitialized");
    reveal_strlit("SerializationError");
    reveal_strlit("IncorrectLastVotedRound");
    reveal_strlit("IncorrectPreferredRound");
    reveal_strlit("InvalidQuorumCertificate");
    reveal_strlit("InvalidProposal");
    reveal_strlit("VoteProposalSignatureNotFound");
    match e {
        Error::IncorrectEpoch(..) => {
            reveal_strlit("IncorrectEpoch");
            lemma_no_known_prefix("IncorrectEpoch"@, 0, 0, 9, 9, 2, 2, 0);
        },
        Error::IncorrectRound(..) => {
            reveal_strlit("IncorrectRound");
            lemma_no_known_prefix("IncorrectRound"@, 0, 0, 9, 9, 2, 2, 0);
        },
        Error::IncorrectLastVotedRound(..) => {
            lemma_differs_at("IncorrectLastVotedRound"@, "NotInitialized"@, 0);
            lemma_differs_at("IncorrectLastVotedRound"@, "SerializationError"@, 0);
        },
        Error::IncorrectPreferredRound(..) => {
            lemma_differs_at("IncorrectPreferredRound"@, "NotInitialized"@, 0);
            lemma_differs_at("IncorrectPreferredRound"@, "SerializationError"@, 0);
            lemma_differs_at("IncorrectPreferredRound"@, "IncorrectLastVotedRound"@, 9);
        },
        Error::InvalidAccumulatorExtension(..) => {
            reveal_strlit("InvalidAccumulatorExtension");
            lemma_no_known_prefix("InvalidAccumulatorExtension"@, 0, 0, 2, 2, 7, 7, 0);
        },
        Error::InvalidEpochChangeProof(..) => {
            reveal_strlit("InvalidEpochChangeProof");
            lemma_no_known_prefix("InvalidEpochChangeProof"@, 0, 0, 2, 2, 7, 7, 0);
        },
        Error::InternalError(..) => {
            reveal_strlit("InternalError");
            lemma_no_known_prefix("InternalError"@, 0, 0, 2, 2, 2, 2, 0);
        },
        Error::InvalidLedgerInfo => {
            reveal_strlit("InvalidLedgerInfo");
            lemma_no_known_prefix("InvalidLedgerInfo"@, 0, 0, 2, 2, 7, 7, 0);
        },
        Error::InvalidProposal(..) => {
            lemma_differs_at("InvalidProposal"@, "NotInitialized"@, 0);
            lemma_differs_at("InvalidProposal"@, "SerializationError"@, 0);
            lemma_differs_at("InvalidProposal"@, "IncorrectLastVotedRound"@, 2);
            lemma_differs_at("InvalidProposal"@, "IncorrectPreferredRound"@, 2);
            lemma_differs_at("InvalidProposal"@, "InvalidQuorumCertificate"@, 7);
        },
        Error::InvalidQuorumCertificate(..) => {
            lemma_differs_at("InvalidQuorumCertificate"@, "NotInitialized"@, 0);
            lemma_differs_at("InvalidQuorumCertificate"@, "SerializationError"@, 0);
            lemma_differs_at("InvalidQuorumCertificate"@, "IncorrectLastVotedRound"@, 2);
            lemma_differs_at("InvalidQuorumCertificate"@, "IncorrectPreferredRound"@, 2);
        },
        Error::NotInitialized(..) => {},
        Error::NotSafeForOrderVote(..) => {
            reveal_strlit("NotSafeForOrderVote");
            lemma_no_known_prefix("NotSafeForOrderVote"@, 3, 0, 0, 0, 0, 0, 0);
        },
        Error::SecureStorageMissingDataError(..) => {
            reveal_strlit("SecureStorageMissingDataError");
            lemma_no_known_prefix("SecureStorageMissingDataError"@, 0, 2, 0, 0, 0, 0, 0);
        },
        Error::SecureStorageUnexpectedError(..) => {
            reveal_strlit("SecureStorageUnexpectedError");
            lemma_no_known_prefix("SecureStorageUnexpectedError"@, 0, 2, 0, 0, 0, 0, 0);
        },
        Error::SerializationError(..) => {
            lemma_differs_at("SerializationError"@, "NotInitialized"@, 0);
        },
        Error::ValidatorKeyNotFound(..) => {
            reveal_strlit("ValidatorKeyNotFound");
            lemma_no_known_prefix("ValidatorKeyNotFound"@, 0, 0, 0, 0, 0, 0, 1);
        },
        Error::ValidatorNotInSet(..) => {
            reveal_strlit("ValidatorNotInSet");
            lemma_no_known_prefix("ValidatorNotInSet"@, 0, 0, 0, 0, 0, 0, 1);
        },
        Error::VoteProposalSignatureNotFound => {
            lemma_differs_at("VoteProposalSignatureNotFound"@, "NotInitialized"@, 0);
            lemma_differs_at("VoteProposalSignatureNotFound"@, "SerializationError"@, 0);
            lemma_differs_at("VoteProposalSignatureNotFound"@, "IncorrectLastVotedRound"@, 0);
            lemma_differs_at("VoteProposalSignatureNotFound"@, "IncorrectPreferredRound"@, 0);
            lemma_differs_at("VoteProposalSignatureNotFound"@, "InvalidQuorumCertificate"@, 0);
            lemma_differs_at("VoteProposalSignatureNotFound"@, "InvalidProposal"@, 0);
        },
        Error::NotSafeToVote(..) => {
            reveal_strlit("NotSafeToVote");
            lemma_no_known_prefix("NotSafeToVote"@, 3, 0, 0, 0, 0, 0, 0);
        },
        Error::NotSafeToTimeout(..) => {
            reveal_strlit("NotSafeToTimeout");
            lemma_no_known_prefix("NotSafeToTimeout"@, 3, 0, 0, 0, 0, 0, 0);
        },
        Error::InvalidTimeoutCertificate(..) => {
            reveal_strlit("InvalidTimeoutCertificate");
            lemma_no_known_prefix("InvalidTimeoutCertificate"@, 0, 0, 2, 2, 7, 7, 0);
        },
        Error::InconsistentExecutionResult(..) => {
            reveal_strlit("InconsistentExecutionResult");
            lemma_no_known_prefix("InconsistentExecutionResult"@, 0, 0, 4, 4, 2, 2, 0);
        },
        Error::InvalidOrderedLedgerInfo(..) => {
            reveal_strlit("InvalidOrderedLedgerInfo");
            lemma_no_known_prefix("InvalidOrderedLedgerInfo"@, 0, 0, 2, 2, 7, 7, 0);
        },
        Error::WaypointOutOfDate(..) => {
            reveal_strlit("WaypointOutOfDate");
            lemma_no_known_prefix("WaypointOutOfDate"@, 0, 0, 0, 0, 0, 0, 0);
        },
        Error::InvalidTimeout(..) => {
            reveal_strlit("InvalidTimeout");
            lemma_no_known_prefix("InvalidTimeout"@, 0, 0, 2, 2, 7, 7, 0);
        },
    }
}

/// The position of the variant of `e` in the declaration of `Error`.
pub open spec fn variant_index(e: Error) -> int {
    match e {
        Error::IncorrectEpoch(..) => 0,
        Error::IncorrectRound(..) => 1,
        Error::IncorrectLastVotedRound(..) => 2,
        Error::IncorrectPreferredRound(..) => 3,
        Error::InvalidAccumulatorExtension(..) => 4,
        Error::InvalidEpochChangeProof(..) => 5,
        Error::InternalError(..) => 6,
        Error::InvalidLedgerInfo => 7,
        Error::InvalidProposal(..) => 8,
        Error::InvalidQuorumCertificate(..) => 9,
        Error::NotInitialized(..) => 10,
        Error::NotSafeForOrderVote(..) => 11,
        Error::SecureStorageMissingDataError(..) => 12,
        Error::SecureStorageUnexpectedError(..) => 13,
        Error::SerializationError(..) => 14,
        Error::ValidatorKeyNotFound(..) => 15,
        Error::ValidatorNotInSet(..) => 16,
        Error::VoteProposalSignatureNotFound => 17,
        Error::NotSafeToVote(..) => 18,
        Error::NotSafeToTimeout(..) => 19,
        Error::InvalidTimeoutCertificate(..) => 20,
        Error::InconsistentExecutionResult(..) => 21,
        Error::InvalidOrderedLedgerInfo(..) => 22,
        Error::WaypointOutOfDate(..) => 23,
        Error::InvalidTimeout(..) => 24,
    }
}

/// The kind sent for each error is the name of its variant, whatever it
/// carries.
pub proof fn lemma_kind_names(a: u64, b: u64, c: u64, d: u64, o: Option<u64>, t: String, t2: String)
    ensures
        Error::IncorrectEpoch(a, b).kind_name() == "IncorrectEpoch"@,
        Error::IncorrectRound(a).kind_name() == "IncorrectRound"@,
        Error::IncorrectLastVotedRound(a, b).kind_name() == "IncorrectLastVotedRound"@,
        Error::IncorrectPreferredRound(a, b).kind_name() == "IncorrectPreferredRound"@,
        Error::InvalidAccumulatorExtension(t).kind_name() == "InvalidAccumulatorExtension"@,
        Error::InvalidEpochChangeProof(t).kind_name() == "InvalidEpochChangeProof"@,
        Error::InternalError(t).kind_name() == "InternalError"@,
        Error::InvalidLedgerInfo.kind_name() == "InvalidLedgerInfo"@,
        Error::InvalidProposal(t).kind_name() == "InvalidProposal"@,
        Error::InvalidQuorumCertificate(t).kind_name() == "InvalidQuorumCertificate"@,
        Error::NotInitialized(t).kind_name() == "NotInitialized"@,
        Error::NotSafeForOrderVote(a, b).kind_name() == "NotSafeForOrderVote"@,
        Error::SecureStorageMissingDataError(t).kind_name() == "SecureStorageMissingDataError"@,
        Error::SecureStorageUnexpectedError(t).kind_name() == "SecureStorageUnexpectedError"@,
        Error::SerializationError(t).kind_name() == "SerializationError"@,
        Error::ValidatorKeyNotFound(t).kind_name() == "ValidatorKeyNotFound"@,
        Error::ValidatorNotInSet(t).kind_name() == "ValidatorNotInSet"@,
        Error::VoteProposalSignatureNotFound.kind_name() == "VoteProposalSignatureNotFound"@,
        Error::NotSafeToVote(a, b, o).kind_name() == "NotSafeToVote"@,
        Error::NotSafeToTimeout(a, b, c, d).kind_name() == "NotSafeToTimeout"@,
        Error::InvalidTimeoutCertificate(t).kind_name() == "InvalidTimeoutCertificate"@,
        Error::InconsistentExecutionResult(t, t2).kind_name() == "InconsistentExecutionResult"@,
        Error::InvalidOrderedLedgerInfo(t).kind_name() == "InvalidOrderedLedgerInfo"@,
        Error::WaypointOutOfDate(a, b, c, d).kind_name() == "WaypointOutOfDate"@,
        Error::InvalidTimeout(t).kind_name() == "InvalidTimeout"@,
{
}

/// Different kinds of error are sent with different kind names, so a
/// refusal never reports one kind as another.
pub proof fn lemma_kind_names_distinct(x: Error, y: Error)
    requires
        variant_index(x) != variant_index(y),
    ensures
        x.kind_name() != y.kind_name(),
{
    reveal_strlit("IncorrectEpoch");
    reveal_strlit("IncorrectRound");
    reveal_strlit("IncorrectLastVotedRound");
    reveal_strlit("IncorrectPreferredRound");
    reveal_strlit("InvalidAccumulatorExtension");
    reveal_strlit("InvalidEpochChangeProof");
    reveal_strlit("InternalError");
    reveal_strlit("InvalidLedgerInfo");
    reveal_strlit("InvalidProposal");
    reveal_strlit("InvalidQuorumCertificate");
    reveal_strlit("NotInitialized");
    reveal_strlit("NotSafeForOrderVote");
    reveal_strlit("SecureStorageMissingDataError");
    reveal_strlit("SecureStorageUnexpectedError");
    reveal_strlit("SerializationError");
    reveal_strlit("ValidatorKeyNotFound");
    reveal_strlit("ValidatorNotInSet");
    reveal_strlit("VoteProposalSignatureNotFound");
    reveal_strlit("NotSafeToVote");
    reveal_strlit("NotSafeToTimeout");
    reveal_strlit("InvalidTimeoutCertificate");
    reveal_strlit("InconsistentExecutionResult");
    reveal_strlit("InvalidOrderedLedgerInfo");
    reveal_strlit("WaypointOutOfDate");
    reveal_strlit("InvalidTimeout");
    if x.kind_name() == y.kind_name() {
        assert(x.kind_name().len() == y.kind_name().len());
        assert(x.kind_name()[9] == y.kind_name()[9]);
    }
}

} // verus!
