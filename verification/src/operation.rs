//! The operations a validator asks of its signer, and the gRPC paths under
//! which they are called.

use vstd::prelude::*;

use crate::text::{camel_from, pascal_case, same_text};

verus! {

/// The fully qualified name of the signing service.
pub open spec fn service_name() -> Seq<char> {
    "aptos.safety_rules.v1.SafetyRulesService"@
}

/// What every call path begins with: a slash, the service's name and a
/// slash.
pub open spec fn path_prefix() -> Seq<char> {
    "/"@ + service_name() + "/"@
}

/// One of the requests of the signing protocol.
#[derive(Clone, Copy, Debug, PartialEq, Eq)]
pub enum Operation {
    ConsensusState,
    Initialize,
    SignProposal,
    SignTimeoutWithQc,
    ConstructAndSignVoteTwoChain,
    ConstructAndSignOrderVote,
    SignCommitVote,
}

impl Operation {
    /// The name of the operation in logs and error texts.
    pub open spec fn spec_name(self) -> Seq<char> {
        match self {
            Operation::ConsensusState => "consensus_state"@,
            Operation::Initialize => "initialize"@,
            Operation::SignProposal => "sign_proposal"@,
            Operation::SignTimeoutWithQc => "sign_timeout_with_qc"@,
            Operation::ConstructAndSignVoteTwoChain => "construct_and_sign_vote_two_chain"@,
            Operation::ConstructAndSignOrderVote => "construct_and_sign_order_vote"@,
            Operation::SignCommitVote => "sign_commit_vote"@,
        }
    }

    /// The name of the operation (see `spec_name`).
    pub fn name(&self) -> (s: &'static str)
        ensures
            s@ == self.spec_name(),
    {
        match self {
            Operation::ConsensusState => "consensus_state",
            Operation::Initialize => "initialize",
            Operation::SignProposal => "sign_proposal",
            Operation::SignTimeoutWithQc => "sign_timeout_with_qc",
            Operation::ConstructAndSignVoteTwoChain => "construct_and_sign_vote_two_chain",
            Operation::ConstructAndSignOrderVote => "construct_and_sign_order_vote",
            Operation::SignCommitVote => "sign_commit_vote",
        }
    }

    /// The name of the gRPC method that carries the operation.
    pub open spec fn spec_method_name(self) -> Seq<char> {
        match self {
            Operation::ConsensusState => "ConsensusState"@,
            Operation::Initialize => "Initialize"@,
            Operation::SignProposal => "SignProposal"@,
            Operation::SignTimeoutWithQc => "SignTimeoutWithQc"@,
            Operation::ConstructAndSignVoteTwoChain => "ConstructAndSignVoteTwoChain"@,
            Operation::ConstructAndSignOrderVote => "ConstructAndSignOrderVote"@,
            Operation::SignCommitVote => "SignCommitVote"@,
        }
    }

    /// The path under which the operation is called: the service's prefix
    /// and the method's name.
    pub open spec fn spec_path(self) -> Seq<char> {
        path_prefix() + self.spec_method_name()
    }

    /// The name of the gRPC method (see `spec_method_name`).
    pub fn method_name(&self) -> (s: &'static str)
        ensures
            s@ == self.spec_method_name(),
    {
        match self {
            Operation::ConsensusState => "ConsensusState",
            Operation::Initialize => "Initialize",
            Operation::SignProposal => "SignProposal",
            Operation::SignTimeoutWithQc => "SignTimeoutWithQc",
            Operation::ConstructAndSignVoteTwoChain => "ConstructAndSignVoteTwoChain",
            Operation::ConstructAndSignOrderVote => "ConstructAndSignOrderVote",
            Operation::SignCommitVote => "SignCommitVote",
        }
    }

    /// The path under which the operation is called (see `spec_path`).
    pub fn path(&self) -> (s: &'static str)
        ensures
            s@ == self.spec_path(),
    {
        proof {
            reveal_strlit("/");
            reveal_strlit("aptos.safety_rules.v1.SafetyRulesService");
        }
        match self {
            Operation::ConsensusState => {
                let s = "/aptos.safety_rules.v1.SafetyRulesService/ConsensusState";
                proof {
                    reveal_strlit("/aptos.safety_rules.v1.SafetyRulesService/ConsensusState");
                    reveal_strlit("ConsensusState");
                    assert(s@ =~= self.spec_path());
                }
                s
            },
            Operation::Initialize => {
                let s = "/aptos.safety_rules.v1.SafetyRulesService/Initialize";
                proof {
                    reveal_strlit("/aptos.safety_rules.v1.SafetyRulesService/Initialize");
                    reveal_strlit("Initialize");
                    assert(s@ =~= self.spec_path());
                }
                s
            },
            Operation::SignProposal => {
                let s = "/aptos.safety_rules.v1.SafetyRulesService/SignProposal";
                proof {
                    reveal_strlit("/aptos.safety_rules.v1.SafetyRulesService/SignProposal");
                    reveal_strlit("SignProposal");
                    assert(s@ =~= self.spec_path());
                }
                s
            },
            Operation::SignTimeoutWithQc => {
                let s = "/aptos.safety_rules.v1.SafetyRulesService/SignTimeoutWithQc";
                proof {
                    reveal_strlit("/aptos.safety_rules.v1.SafetyRulesService/SignTimeoutWithQc");
                    reveal_strlit("SignTimeoutWithQc");
                    assert(s@ =~= self.spec_path());
                }
                s
            },
            Operation::ConstructAndSignVoteTwoChain => {
                let s = "/aptos.safety_rules.v1.SafetyRulesService/ConstructAndSignVoteTwoChain";
                proof {
                    reveal_strlit(
                        "/aptos.safety_rules.v1.SafetyRulesService/ConstructAndSignVoteTwoChain",
                    );
                    reveal_strlit("ConstructAndSignVoteTwoChain");
                    assert(s@ =~= self.spec_path());
                }
                s
            },
            Operation::ConstructAndSignOrderVote => {
                let s = "/aptos.safety_rules.v1.SafetyRulesService/ConstructAndSignOrderVote";
                proof {
                    reveal_strlit(
                        "/aptos.safety_rules.v1.SafetyRulesService/ConstructAndSignOrderVote",
                    );
                    reveal_strlit("ConstructAndSignOrderVote");
                    assert(s@ =~= self.spec_path());
                }
                s
            },
            Operation::SignCommitVote => {
                let s = "/aptos.safety_rules.v1.SafetyRulesService/SignCommitVote";
                proof {
                    reveal_strlit("/aptos.safety_rules.v1.SafetyRulesService/SignCommitVote");
                    reveal_strlit("SignCommitVote");
                    assert(s@ =~= self.spec_path());
                }
                s
            },
        }
    }

    /// The operation that a call to `path` asks for, if any: the server
    /// answers any other path as unimplemented.
    pub fn from_path(path: &str) -> (r: Option<Operation>)
        ensures
            routes_to(path@, r),
    {
        let all = [
            Operation::ConsensusState,
            Operation::Initialize,
            Operation::SignProposal,
            Operation::SignTimeoutWithQc,
            Operation::ConstructAndSignVoteTwoChain,
            Operation::ConstructAndSignOrderVote,
            Operation::SignCommitVote,
        ];
        let mut i: usize = 0;
        while i < 7
            invariant
                i <= 7,
                all@ == seq![
                    Operation::ConsensusState,
                    Operation::Initialize,
                    Operation::SignProposal,
                    Operation::SignTimeoutWithQc,
                    Operation::ConstructAndSignVoteTwoChain,
                    Operation::ConstructAndSignOrderVote,
                    Operation::SignCommitVote,
                ],
                forall|j: int| 0 <= j < i ==> path@ != #[trigger] all@[j].spec_path(),
            decreases 7 - i,
        {
            let op = all[i];
            if same_text(path, op.path()) {
                return Some(op);
            }
            i = i + 1;
        }
        proof {
            assert forall|op: Operation| path@ != #[trigger] op.spec_path() by {
                match op {
                    Operation::ConsensusState => assert(path@ != all@[0].spec_path()),
                    Operation::Initialize => assert(path@ != all@[1].spec_path()),
                    Operation::SignProposal => assert(path@ != all@[2].spec_path()),
                    Operation::SignTimeoutWithQc => assert(path@ != all@[3].spec_path()),
                    Operation::ConstructAndSignVoteTwoChain => assert(
                        path@ != all@[4].spec_path()
                    ),
                    Operation::ConstructAndSignOrderVote => assert(path@ != all@[5].spec_path()),
                    Operation::SignCommitVote => assert(path@ != all@[6].spec_path()),
                }
            }
        }
        None
    }
}

/// Whether `r` is the operation that a call to `path` asks for: the
/// operation whose path it is, or none when it is no operation's path.
pub open spec fn routes_to(path: Seq<char>, r: Option<Operation>) -> bool {
    match r {
        Some(op) => path == op.spec_path(),
        None => forall|op: Operation| path != #[trigger] op.spec_path(),
    }
}

/// Distinct operations are carried by distinct methods.
proof fn lemma_method_names_distinct(a: Operation, b: Operation)
    requires
        a != b,
    ensures
        a.spec_method_name() != b.spec_method_name(),
{
    reveal_strlit("ConsensusState");
    reveal_strlit("Initialize");
    reveal_strlit("SignProposal");
    reveal_strlit("SignTimeoutWithQc");
    reveal_strlit("ConstructAndSignVoteTwoChain");
    reveal_strlit("ConstructAndSignOrderVote");
    reveal_strlit("SignCommitVote");
    if a.spec_method_name() == b.spec_method_name() {
        assert(a.spec_method_name()[0] == b.spec_method_name()[0]);
        assert(a.spec_method_name().len() == b.spec_method_name().len());
    }
}

/// A call made for an operation is routed back to that operation: no two
/// operations share a path, so the server dispatches a client's call for
/// `op` to `op` itself.
pub proof fn lemma_route_round_trip(op: Operation, r: Option<Operation>)
    requires
        routes_to(op.spec_path(), r),
    ensures
        r == Some(op),
{
    match r {
        Some(o) => {
            let n = path_prefix().len() as int;
            assert(op.spec_path().skip(n) =~= op.spec_method_name());
            assert(o.spec_path().skip(n) =~= o.spec_method_name());
            if o != op {
                lemma_method_names_distinct(o, op);
            }
        },
        None => {
            assert(op.spec_path() != op.spec_path());
        },
    }
}


/// The PascalCase form of `consensus_state` is `ConsensusState`.
proof fn lemma_pascal_consensus_state()
    ensures
        pascal_case("consensus_state"@) == "ConsensusState"@,
{
    reveal_strlit("consensus_state");
    reveal_strlit("ConsensusState");
    reveal_with_fuel(camel_from, 16);
    assert(pascal_case("consensus_state"@) =~= "ConsensusState"@);
}

/// The PascalCase form of `initialize` is `Initialize`.
proof fn lemma_pascal_initialize()
    ensures
        pascal_case("initialize"@) == "Initialize"@,
{
    reveal_strlit("initialize");
    reveal_strlit("Initialize");
    reveal_with_fuel(camel_from, 11);
    assert(pascal_case("initialize"@) =~= "Initialize"@);
}

/// The PascalCase form of `sign_proposal` is `SignProposal`.
proof fn lemma_pascal_sign_proposal()
    ensures
        pascal_case("sign_proposal"@) == "SignProposal"@,
{
    reveal_strlit("sign_proposal");
    reveal_strlit("SignProposal");
    reveal_with_fuel(camel_from, 14);
    assert(pascal_case("sign_proposal"@) =~= "SignProposal"@);
}

/// The PascalCase form of `sign_timeout_with_qc` is `SignTimeoutWithQc`.
proof fn lemma_pascal_sign_timeout_with_qc()
    ensures
        pascal_case("sign_timeout_with_qc"@) == "SignTimeoutWithQc"@,
{
    reveal_strlit("sign_timeout_with_qc");
    reveal_strlit("SignTimeoutWithQc");
    reveal_with_fuel(camel_from, 21);
    assert(pascal_case("sign_timeout_with_qc"@) =~= "SignTimeoutWithQc"@);
}

/// The PascalCase form of `construct_and_sign_vote_two_chain` is `ConstructAndSignVoteTwoChain`.
proof fn lemma_pascal_construct_and_sign_vote_two_chain()
    ensures
        pascal_case("construct_and_sign_vote_two_chain"@) == "ConstructAndSignVoteTwoChain"@,
{
    reveal_strlit("construct_and_sign_vote_two_chain");
    reveal_strlit("ConstructAndSignVoteTwoChain");
    reveal_with_fuel(camel_from, 34);
    assert(pascal_case("construct_and_sign_vote_two_chain"@) =~= "ConstructAndSignVoteTwoChain"@);
}

/// The PascalCase form of `construct_and_sign_order_vote` is `ConstructAndSignOrderVote`.
proof fn lemma_pascal_construct_and_sign_order_vote()
    ensures
        pascal_case("construct_and_sign_order_vote"@) == "ConstructAndSignOrderVote"@,
{
    reveal_strlit("construct_and_sign_order_vote");
    reveal_strlit("ConstructAndSignOrderVote");
    reveal_with_fuel(camel_from, 30);
    assert(pascal_case("construct_and_sign_order_vote"@) =~= "ConstructAndSignOrderVote"@);
}

/// The PascalCase form of `sign_commit_vote` is `SignCommitVote`.
proof fn lemma_pascal_sign_commit_vote()
    ensures
        pascal_case("sign_commit_vote"@) == "SignCommitVote"@,
{
    reveal_strlit("sign_commit_vote");
    reveal_strlit("SignCommitVote");
    reveal_with_fuel(camel_from, 17);
    assert(pascal_case("sign_commit_vote"@) =~= "SignCommitVote"@);
}

/// Each operation is called under the service's path followed by the
/// PascalCase form of the operation's own name (`sign_proposal` is called
/// as `SignProposal`).
pub proof fn lemma_method_is_pascal_case_of_name(op: Operation)
    ensures
        op.spec_method_name() == pascal_case(op.spec_name()),
        op.spec_path() == "/aptos.safety_rules.v1.SafetyRulesService/"@ + pascal_case(
            op.spec_name(),
        ),
{
    assert(path_prefix() =~= "/aptos.safety_rules.v1.SafetyRulesService/"@) by {
        reveal_strlit("/");
        reveal_strlit("aptos.safety_rules.v1.SafetyRulesService");
        reveal_strlit("/aptos.safety_rules.v1.SafetyRulesService/");
    }
    match op {
        Operation::ConsensusState => lemma_pascal_consensus_state(),
        Operation::Initialize => lemma_pascal_initialize(),
        Operation::SignProposal => lemma_pascal_sign_proposal(),
        Operation::SignTimeoutWithQc => lemma_pascal_sign_timeout_with_qc(),
        Operation::ConstructAndSignVoteTwoChain => lemma_pascal_construct_and_sign_vote_two_chain(),
        Operation::ConstructAndSignOrderVote => lemma_pascal_construct_and_sign_order_vote(),
        Operation::SignCommitVote => lemma_pascal_sign_commit_vote(),
    }
}

/// The call path of each operation, as the protocol fixes it; a call to
/// any of these paths is routed to that operation and no other.
pub proof fn lemma_call_paths(r: Option<Operation>)
    ensures
        Operation::ConsensusState.spec_path()
            == "/aptos.safety_rules.v1.SafetyRulesService/ConsensusState"@,
        Operation::Initialize.spec_path() == "/aptos.safety_rules.v1.SafetyRulesService/Initialize"@,
        Operation::SignProposal.spec_path()
            == "/aptos.safety_rules.v1.SafetyRulesService/SignProposal"@,
        Operation::SignTimeoutWithQc.spec_path()
            == "/aptos.safety_rules.v1.SafetyRulesService/SignTimeoutWithQc"@,
        Operation::ConstructAndSignVoteTwoChain.spec_path()
            == "/aptos.safety_rules.v1.SafetyRulesService/ConstructAndSignVoteTwoChain"@,
        Operation::ConstructAndSignOrderVote.spec_path()
            == "/aptos.safety_rules.v1.SafetyRulesService/ConstructAndSignOrderVote"@,
        Operation::SignCommitVote.spec_path()
            == "/aptos.safety_rules.v1.SafetyRulesService/SignCommitVote"@,
        routes_to("/aptos.safety_rules.v1.SafetyRulesService/SignProposal"@, r) ==> r == Some(
            Operation::SignProposal,
        ),
        routes_to("/aptos.safety_rules.v1.SafetyRulesService/SignCommitVote"@, r) ==> r == Some(
            Operation::SignCommitVote,
        ),
{
    reveal_strlit("/");
    reveal_strlit("aptos.safety_rules.v1.SafetyRulesService");
    reveal_strlit("ConsensusState");
    reveal_strlit("Initialize");
    reveal_strlit("SignProposal");
    reveal_strlit("SignTimeoutWithQc");
    reveal_strlit("ConstructAndSignVoteTwoChain");
    reveal_strlit("ConstructAndSignOrderVote");
    reveal_strlit("SignCommitVote");
    reveal_strlit("/aptos.safety_rules.v1.SafetyRulesService/ConsensusState");
    reveal_strlit("/aptos.safety_rules.v1.SafetyRulesService/Initialize");
    reveal_strlit("/aptos.safety_rules.v1.SafetyRulesService/SignProposal");
    reveal_strlit("/aptos.safety_rules.v1.SafetyRulesService/SignTimeoutWithQc");
    reveal_strlit("/aptos.safety_rules.v1.SafetyRulesService/ConstructAndSignVoteTwoChain");
    reveal_strlit("/aptos.safety_rules.v1.SafetyRulesService/ConstructAndSignOrderVote");
    reveal_strlit("/aptos.safety_rules.v1.SafetyRulesService/SignCommitVote");
    assert(Operation::ConsensusState.spec_path()
        =~= "/aptos.safety_rules.v1.SafetyRulesService/ConsensusState"@);
    assert(Operation::Initialize.spec_path()
        =~= "/aptos.safety_rules.v1.SafetyRulesService/Initialize"@);
    assert(Operation::SignProposal.spec_path()
        =~= "/aptos.safety_rules.v1.SafetyRulesService/SignProposal"@);
    assert(Operation::SignTimeoutWithQc.spec_path()
        =~= "/aptos.safety_rules.v1.SafetyRulesService/SignTimeoutWithQc"@);
    assert(Operation::ConstructAndSignVoteTwoChain.spec_path()
        =~= "/aptos.safety_rules.v1.SafetyRulesService/ConstructAndSignVoteTwoChain"@);
    assert(Operation::ConstructAndSignOrderVote.spec_path()
        =~= "/aptos.safety_rules.v1.SafetyRulesService/ConstructAndSignOrderVote"@);
    assert(Operation::SignCommitVote.spec_path()
        =~= "/aptos.safety_rules.v1.SafetyRulesService/SignCommitVote"@);
    if routes_to("/aptos.safety_rules.v1.SafetyRulesService/SignProposal"@, r) {
        lemma_route_round_trip(Operation::SignProposal, r);
    }
    if routes_to("/aptos.safety_rules.v1.SafetyRulesService/SignCommitVote"@, r) {
        lemma_route_round_trip(Operation::SignCommitVote, r);
    }
}

} // verus!
