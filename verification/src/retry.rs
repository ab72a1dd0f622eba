//! The pluggable retry strategy governing transactional resubmission, and
//! the resubmission decision itself.

use vstd::prelude::*;
use crate::errors::WriteError;

verus! {

/// How many attempts a strategy permits in all.
#[derive(Clone, Copy, Debug, PartialEq, Eq, Structural)]
pub enum Policy {
    /// At most `n` attempts.
    Limit(usize),
    /// No cap; the strategy alone decides.
    Unlimited,
    /// A single attempt, never resubmitted.
    Never,
}

/// A caller-supplied retry strategy. It must be safe to consult repeatedly
/// with the same arguments, up to bookkeeping the caller performs itself.
pub trait RetryStrategy {
    /// Whether to resubmit after a failed attempt; `attempts` counts the
    /// attempts made so far, the failed one included.
    fn should_retry(&self, error: &WriteError, attempts: usize) -> bool;

    /// The cap on attempts.
    fn policy(&self) -> Policy;
}

/// Whether the policy permits one more attempt after `attempts` attempts
/// have already been made.
pub open spec fn policy_allows_retry(policy: Policy, attempts: nat) -> bool {
    match policy {
        Policy::Limit(n) => attempts < n,
        Policy::Unlimited => true,
        Policy::Never => false,
    }
}

/// The attempt count at which a run settles when every submission fails
/// and the strategy always asks to retry; the policy alone stops such a
/// run, so the count is meaningful for every bounding policy (a run under
/// an unlimited policy never settles).
pub open spec fn spec_attempts_when_all_fail(policy: Policy) -> nat {
    match policy {
        Policy::Limit(n) => if n == 0 {
            1
        } else {
            n as nat
        },
        Policy::Unlimited => 0,
        Policy::Never => 1,
    }
}

/// Law: when every submission fails and the strategy always asks to retry,
/// another attempt follows attempt `k` exactly while `k` is below the cap,
/// so the run makes exactly `spec_attempts_when_all_fail(policy)` attempts
/// and then settles as failed.
pub proof fn lemma_failing_run_settles(policy: Policy, k: nat)
    requires
        policy != Policy::Unlimited,
        1 <= k,
    ensures
        policy_allows_retry(policy, k) <==> k + 1 <= spec_attempts_when_all_fail(policy),
{
}

/// The resubmission decision after a failed attempt: resubmit exactly when
/// the strategy asks to and the policy still permits another attempt.
pub fn decide_retry(policy: Policy, wants_retry: bool, attempts: usize) -> (r: bool)
    ensures
        r == (wants_retry && policy_allows_retry(policy, attempts as nat)),
{
    wants_retry && match policy {
        Policy::Limit(n) => attempts < n,
        Policy::Unlimited => true,
        Policy::Never => false,
    }
}

} // verus!
