//! Containment policy parameters and the rules for changing them.
use vstd::prelude::*;

verus! {

/// Thresholds that decide when an agent is late, lost or failing.
#[derive(Debug, Clone, Copy, PartialEq, Eq, Structural)]
pub struct DeadmanPolicy {
    pub heartbeat_timeout_secs: i64,
    pub hard_timeout_secs: i64,
    pub max_consecutive_failures: i32,
    pub fail_closed: bool,
}

/// The policy an agent starts with: warn at 15 s, trip at 30 s or after 3
/// consecutive failures, and fail closed.
pub open spec fn default_policy() -> DeadmanPolicy {
    DeadmanPolicy {
        heartbeat_timeout_secs: 15,
        hard_timeout_secs: 30,
        max_consecutive_failures: 3,
        fail_closed: true,
    }
}

impl Default for DeadmanPolicy {
    fn default() -> (p: Self)
        ensures
            p == default_policy(),
    {
        DeadmanPolicy {
            heartbeat_timeout_secs: 15,
            hard_timeout_secs: 30,
            max_consecutive_failures: 3,
            fail_closed: true,
        }
    }
}

/// Assembles a policy from its stored columns.
pub fn policy_from_row(
    heartbeat_timeout_secs: i64,
    hard_timeout_secs: i64,
    max_consecutive_failures: i32,
    fail_closed: bool,
) -> (p: DeadmanPolicy)
    ensures
        p == (DeadmanPolicy {
            heartbeat_timeout_secs,
            hard_timeout_secs,
            max_consecutive_failures,
            fail_closed,
        }),
{
    DeadmanPolicy { heartbeat_timeout_secs, hard_timeout_secs, max_consecutive_failures, fail_closed }
}

/// Why an operator's policy change was refused.
#[derive(Debug, Clone, Copy, PartialEq, Eq, Structural)]
pub enum PolicyError {
    /// The warning threshold is below two seconds.
    HeartbeatTooShort,
    /// The hard timeout does not exceed the warning threshold.
    HardNotAboveHeartbeat,
    /// Fewer than one failure would trip the agent.
    FailuresBelowOne,
}

impl PolicyError {
    /// The message returned to the operator.
    pub fn message(self) -> (m: &'static str)
        ensures
            m@ == match self {
                PolicyError::HeartbeatTooShort => "heartbeat_timeout_secs must be >= 2"@,
                PolicyError::HardNotAboveHeartbeat => "hard_timeout_secs must exceed heartbeat_timeout_secs"@,
                PolicyError::FailuresBelowOne => "max_consecutive_failures must be >= 1"@,
            },
    {
        match self {
            PolicyError::HeartbeatTooShort => "heartbeat_timeout_secs must be >= 2",
            PolicyError::HardNotAboveHeartbeat => "hard_timeout_secs must exceed heartbeat_timeout_secs",
            PolicyError::FailuresBelowOne => "max_consecutive_failures must be >= 1",
        }
    }
}

/// A policy an operator may install: a warning of at least two seconds, a
/// hard timeout beyond it, and at least one failure before tripping.
pub open spec fn policy_is_acceptable(p: DeadmanPolicy) -> bool {
    &&& p.heartbeat_timeout_secs >= 2
    &&& p.hard_timeout_secs > p.heartbeat_timeout_secs
    &&& p.max_consecutive_failures >= 1
}

/// The outcome of an operator's policy change, checks taken in order.
pub open spec fn policy_update_result(
    heartbeat_timeout_secs: int,
    hard_timeout_secs: int,
    max_consecutive_failures: int,
) -> Option<PolicyError> {
    if heartbeat_timeout_secs < 2 {
        Some(PolicyError::HeartbeatTooShort)
    } else if hard_timeout_secs <= heartbeat_timeout_secs {
        Some(PolicyError::HardNotAboveHeartbeat)
    } else if max_consecutive_failures < 1 {
        Some(PolicyError::FailuresBelowOne)
    } else {
        None
    }
}

/// Checks an operator's policy change and builds the policy to store.
pub fn validate_policy_update(
    heartbeat_timeout_secs: i64,
    hard_timeout_secs: i64,
    max_consecutive_failures: i32,
    fail_closed: bool,
) -> (r: Result<DeadmanPolicy, PolicyError>)
    ensures
        match policy_update_result(
            heartbeat_timeout_secs as int,
            hard_timeout_secs as int,
            max_consecutive_failures as int,
        ) {
            Some(e) => r == Err::<DeadmanPolicy, PolicyError>(e),
            None => r == Ok::<DeadmanPolicy, PolicyError>(
                DeadmanPolicy {
                    heartbeat_timeout_secs,
                    hard_timeout_secs,
                    max_consecutive_failures,
                    fail_closed,
                },
            ),
        },
{
    if heartbeat_timeout_secs < 2 {
        return Err(PolicyError::HeartbeatTooShort);
    }
    if hard_timeout_secs <= heartbeat_timeout_secs {
        return Err(PolicyError::HardNotAboveHeartbeat);
    }
    if max_consecutive_failures < 1 {
        return Err(PolicyError::FailuresBelowOne);
    }
    Ok(policy_from_row(heartbeat_timeout_secs, hard_timeout_secs, max_consecutive_failures, fail_closed))
}

/// A policy change is accepted exactly when the resulting policy is one an
/// operator may install.
pub proof fn lemma_accepted_updates_are_acceptable(
    heartbeat_timeout_secs: i64,
    hard_timeout_secs: i64,
    max_consecutive_failures: i32,
    fail_closed: bool,
)
    ensures
        policy_update_result(
            heartbeat_timeout_secs as int,
            hard_timeout_secs as int,
            max_consecutive_failures as int,
        ) is None <==> policy_is_acceptable(
            DeadmanPolicy {
                heartbeat_timeout_secs,
                hard_timeout_secs,
                max_consecutive_failures,
                fail_closed,
            },
        ),
{
}

/// Each refusal names its cause, checked in order: a warning below two
/// seconds; else a hard timeout not beyond the warning; else fewer than one
/// failure.
pub proof fn lemma_policy_refusals(hb: int, hard: int, failures: int)
    ensures
        (policy_update_result(hb, hard, failures) == Some(PolicyError::HeartbeatTooShort)) <==> hb
            < 2,
        (policy_update_result(hb, hard, failures) == Some(PolicyError::HardNotAboveHeartbeat))
            <==> (hb >= 2 && hard <= hb),
        (policy_update_result(hb, hard, failures) == Some(PolicyError::FailuresBelowOne)) <==> (
        hb >= 2 && hard > hb && failures < 1),
        policy_update_result(hb, hard, failures) is None <==> (hb >= 2 && hard > hb && failures
            >= 1),
{
}

/// The default policy is one an operator may install.
pub proof fn lemma_default_policy_is_acceptable()
    ensures
        policy_is_acceptable(default_policy()),
{
}

} // verus!
