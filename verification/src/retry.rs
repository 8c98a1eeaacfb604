//! The client's retry policy: a failed request is tried again after a pause
//! that starts at the configured backoff and doubles after each failure,
//! every pause being at most 30 seconds, until the configured number of
//! tries is spent.

use vstd::prelude::*;
use vstd::arithmetic::power2::pow2;

use crate::config::RemoteSignerConfig;
use crate::error::Error;
use crate::operation::Operation;
use crate::text::{decimal, write_decimal};

verus! {

/// The longest pause between tries, in milliseconds.
pub const MAX_BACKOFF_MS: u64 = 30000;

/// A pause of `b` milliseconds, cut down to at most 30 seconds.
pub open spec fn capped(b: nat) -> nat {
    if b <= MAX_BACKOFF_MS {
        b
    } else {
        MAX_BACKOFF_MS as nat
    }
}

/// The pause that follows a pause of `b` milliseconds: twice as long, but
/// at most 30 seconds.
pub open spec fn next_backoff(b: nat) -> nat {
    capped(2 * b)
}

/// The pause after `k` failed tries, starting from `initial`: the configured
/// backoff (at most 30 seconds) first, then doubled after each failure.
pub open spec fn backoff_after(initial: nat, k: nat) -> nat
    decreases k,
{
    if k == 0 {
        capped(initial)
    } else {
        next_backoff(backoff_after(initial, (k - 1) as nat))
    }
}

/// How many times a request is tried at most: once, and then `max_retries`
/// more times.
pub open spec fn max_tries(max_retries: u32) -> nat {
    max_retries as nat + 1
}

/// The text of the error reported when the tries are spent.
pub open spec fn give_up_text(operation: Seq<char>, attempts: nat, status: Seq<char>) -> Seq<char> {
    "Remote signer "@ + operation + " failed after "@ + decimal(attempts) + " attempts: "@ + status
}

/// Where a request stands in its tries.
pub struct Retry {
    max_retries: u32,
    initial_backoff_ms: u64,
    /// Failed tries so far.
    attempts: u32,
    /// Pause before the next try.
    backoff_ms: u64,
}

/// What to do after a failed try.
pub enum RetryStep {
    /// Pause `pause_ms` milliseconds, then try again; `attempt` tries have
    /// failed so far.
    RetryAfter { next: Retry, attempt: u32, pause_ms: u64 },
    /// Stop and report the error.
    GiveUp(Error),
}

impl Retry {
    /// Fewer tries have failed than are allowed, and the pause is the one
    /// that follows that many failures.
    #[verifier::type_invariant]
    spec fn inv(self) -> bool {
        &&& self.attempts < max_tries(self.max_retries)
        &&& self.backoff_ms == backoff_after(self.initial_backoff_ms as nat, self.attempts as nat)
    }

    /// The configured number of tries.
    pub closed spec fn spec_max_retries(self) -> u32 {
        self.max_retries
    }

    /// The configured first pause, in milliseconds.
    pub closed spec fn spec_initial_backoff_ms(self) -> u64 {
        self.initial_backoff_ms
    }

    /// Failed tries so far.
    pub closed spec fn spec_attempts(self) -> u32 {
        self.attempts
    }

    /// The pause before the next try, in milliseconds.
    pub closed spec fn spec_backoff_ms(self) -> u64 {
        self.backoff_ms
    }

    /// The state of a request that has not been tried yet.
    pub fn new(config: &RemoteSignerConfig) -> (r: Retry)
        ensures
            r.spec_max_retries() == config.max_retries,
            r.spec_initial_backoff_ms() == config.initial_backoff_ms,
            r.spec_attempts() == 0,
            r.spec_backoff_ms() == capped(config.initial_backoff_ms as nat),
    {
        let backoff_ms = if config.initial_backoff_ms > MAX_BACKOFF_MS {
            MAX_BACKOFF_MS
        } else {
            config.initial_backoff_ms
        };
        Retry {
            max_retries: config.max_retries,
            initial_backoff_ms: config.initial_backoff_ms,
            attempts: 0,
            backoff_ms,
        }
    }

    /// Failed tries so far.
    pub fn attempts(&self) -> (n: u32)
        ensures
            n == self.spec_attempts(),
            n < max_tries(self.spec_max_retries()),
    {
        proof {
            use_type_invariant(self);
        }
        self.attempts
    }

    /// Decides what follows a failed try of `operation` that ended with the
    /// status text `status`: another try after the current pause, while
    /// fewer than `max_retries` retries have been made, or else an internal error
    /// that names the operation, the number of tries and the last status.
    pub fn on_failure(self, operation: Operation, status: &str) -> (step: RetryStep)
        ensures
            self.spec_attempts() < max_tries(self.spec_max_retries()),
            self.spec_backoff_ms() == backoff_after(
                self.spec_initial_backoff_ms() as nat,
                self.spec_attempts() as nat,
            ),
            (step is GiveUp) <==> self.spec_attempts() + 1 == max_tries(self.spec_max_retries()),
            match step {
                RetryStep::GiveUp(e) => e matches Error::InternalError(m) && m@ == give_up_text(
                    operation.spec_name(),
                    (self.spec_attempts() + 1) as nat,
                    status@,
                ),
                RetryStep::RetryAfter { next, attempt, pause_ms } => {
                    &&& attempt == self.spec_attempts() + 1
                    &&& pause_ms == self.spec_backoff_ms()
                    &&& pause_ms == backoff_after(
                        self.spec_initial_backoff_ms() as nat,
                        (attempt - 1) as nat,
                    )
                    &&& next.spec_attempts() == attempt
                    &&& next.spec_backoff_ms() == next_backoff(pause_ms as nat)
                    &&& next.spec_max_retries() == self.spec_max_retries()
                    &&& next.spec_initial_backoff_ms() == self.spec_initial_backoff_ms()
                },
            },
    {
        proof {
            use_type_invariant(&self);
        }
        if self.attempts >= self.max_retries {
            let tries: u64 = self.attempts as u64 + 1;
            let mut text = String::from_str("Remote signer ");
            text.append(operation.name());
            text.append(" failed after ");
            write_decimal(&mut text, tries);
            text.append(" attempts: ");
            text.append(status);
            assert(text@ =~= give_up_text(operation.spec_name(), tries as nat, status@));
            RetryStep::GiveUp(Error::InternalError(text))
        } else {
            let attempts = self.attempts + 1;
            let next_backoff_ms = if self.backoff_ms > MAX_BACKOFF_MS / 2 {
                MAX_BACKOFF_MS
            } else {
                self.backoff_ms * 2
            };
            let next = Retry {
                max_retries: self.max_retries,
                initial_backoff_ms: self.initial_backoff_ms,
                attempts,
                backoff_ms: next_backoff_ms,
            };
            RetryStep::RetryAfter { next, attempt: attempts, pause_ms: self.backoff_ms }
        }
    }
}

/// Every pause is the configured backoff times two to the number of failed
/// tries before it, capped at 30 seconds.
pub proof fn lemma_backoff_closed_form(initial: nat, k: nat)
    ensures
        backoff_after(initial, k) == capped(initial * pow2(k)),
    decreases k,
{
    if k == 0 {
        vstd::arithmetic::power2::lemma2_to64();
        assert(initial * pow2(k) == initial) by (nonlinear_arith)
            requires
                pow2(k) == 1,
        ;
    } else {
        vstd::arithmetic::power2::lemma_pow2_unfold(k);
        lemma_backoff_closed_form(initial, (k - 1) as nat);
        let p = pow2((k - 1) as nat);
        assert(initial * pow2(k) == 2 * (initial * p)) by (nonlinear_arith)
            requires
                pow2(k) == 2 * p,
        ;
        assert(backoff_after(initial, k) == next_backoff(backoff_after(initial, (k - 1) as nat)));
    }
}

/// No pause is longer than 30 seconds.
pub proof fn lemma_backoff_bounded(initial: nat, k: nat)
    ensures
        backoff_after(initial, k) <= MAX_BACKOFF_MS,
    decreases k,
{
    if k >= 1 {
        lemma_backoff_bounded(initial, (k - 1) as nat);
    }
}

} // verus!
