//! The deterministic containment decision.
use vstd::prelude::*;
use crate::clock::{Timestamp, whole_seconds_between};
use crate::policy::DeadmanPolicy;
use crate::status::{AgentState, ControlDirective};
use crate::text::{decimal, decimal_text};

verus! {

/// The decision reached for one agent.
#[derive(Debug, Clone)]
pub struct Evaluation {
    pub state: AgentState,
    pub directive: ControlDirective,
    pub trip: bool,
    pub reason: Option<String>,
}

/// An `Evaluation` with its reason read as text.
pub struct EvaluationView {
    pub state: AgentState,
    pub directive: ControlDirective,
    pub trip: bool,
    pub reason: Option<Seq<char>>,
}

impl View for Evaluation {
    type V = EvaluationView;

    open spec fn view(&self) -> EvaluationView {
        EvaluationView {
            state: self.state,
            directive: self.directive,
            trip: self.trip,
            reason: match self.reason {
                Some(r) => Some(r@),
                None => None,
            },
        }
    }
}

/// Heartbeat age in whole seconds: the elapsed time, or zero when the last
/// heartbeat lies in the future.
pub open spec fn heartbeat_age(elapsed_secs: int) -> int {
    if elapsed_secs < 0 {
        0
    } else {
        elapsed_secs
    }
}

/// Reason given when the failure threshold trips an agent.
pub open spec fn failures_reason(failures: int) -> Seq<char> {
    "consecutive_failures="@ + decimal(failures)
}

/// Reason given when the hard heartbeat timeout trips an agent.
pub open spec fn hard_timeout_reason(age: int) -> Seq<char> {
    "hard heartbeat timeout age="@ + decimal(age) + "s"@
}

/// Reason given when an agent's heartbeat is late.
pub open spec fn late_reason(age: int) -> Seq<char> {
    "heartbeat late age="@ + decimal(age) + "s"@
}

/// The containment decision for an agent whose last heartbeat is `age`
/// seconds old, in order of precedence:
/// disarmed agents run; a manual contain or stop holds; too many failures
/// trip the agent into containment; a hard heartbeat timeout trips it,
/// containing it only under a fail-closed policy; a late heartbeat makes it
/// suspect; otherwise it is healthy.
pub open spec fn verdict(
    age: int,
    armed: bool,
    failures: int,
    current: ControlDirective,
    policy: DeadmanPolicy,
) -> EvaluationView {
    if !armed {
        EvaluationView {
            state: AgentState::Healthy,
            directive: ControlDirective::Run,
            trip: false,
            reason: None,
        }
    } else if current != ControlDirective::Run {
        EvaluationView { state: AgentState::Contained, directive: current, trip: false, reason: None }
    } else if failures >= policy.max_consecutive_failures {
        EvaluationView {
            state: AgentState::Tripped,
            directive: ControlDirective::Contain,
            trip: true,
            reason: Some(failures_reason(failures)),
        }
    } else if age >= policy.hard_timeout_secs {
        EvaluationView {
            state: AgentState::Tripped,
            directive: if policy.fail_closed {
                ControlDirective::Contain
            } else {
                ControlDirective::Run
            },
            trip: policy.fail_closed,
            reason: Some(hard_timeout_reason(age)),
        }
    } else if age >= policy.heartbeat_timeout_secs {
        EvaluationView {
            state: AgentState::Suspect,
            directive: ControlDirective::Run,
            trip: false,
            reason: Some(late_reason(age)),
        }
    } else {
        EvaluationView {
            state: AgentState::Healthy,
            directive: ControlDirective::Run,
            trip: false,
            reason: None,
        }
    }
}

/// Evaluates an agent given the whole seconds elapsed since its last
/// heartbeat (negative when the heartbeat lies in the future).
pub fn evaluate_elapsed(
    elapsed_secs: i64,
    armed: bool,
    consecutive_failures: i32,
    current_directive: ControlDirective,
    policy: &DeadmanPolicy,
) -> (e: Evaluation)
    ensures
        e@ == verdict(
            heartbeat_age(elapsed_secs as int),
            armed,
            consecutive_failures as int,
            current_directive,
            *policy,
        ),
{
    if !armed {
        return Evaluation {
            state: AgentState::Healthy,
            directive: ControlDirective::Run,
            trip: false,
            reason: None,
        };
    }
    if current_directive != ControlDirective::Run {
        return Evaluation {
            state: AgentState::Contained,
            directive: current_directive,
            trip: false,
            reason: None,
        };
    }
    let age: i64 = if elapsed_secs < 0 {
        0
    } else {
        elapsed_secs
    };
    if consecutive_failures >= policy.max_consecutive_failures {
        let reason = String::from_str("consecutive_failures=").concat(
            decimal_text(consecutive_failures as i64).as_str(),
        );
        return Evaluation {
            state: AgentState::Tripped,
            directive: ControlDirective::Contain,
            trip: true,
            reason: Some(reason),
        };
    }
    if age >= policy.hard_timeout_secs {
        let reason = String::from_str("hard heartbeat timeout age=").concat(
            decimal_text(age).as_str(),
        ).concat("s");
        return Evaluation {
            state: AgentState::Tripped,
            directive: if policy.fail_closed {
                ControlDirective::Contain
            } else {
                ControlDirective::Run
            },
            trip: policy.fail_closed,
            reason: Some(reason),
        };
    }
    if age >= policy.heartbeat_timeout_secs {
        let reason = String::from_str("heartbeat late age=").concat(decimal_text(age).as_str()).concat(
            "s",
        );
        return Evaluation {
            state: AgentState::Suspect,
            directive: ControlDirective::Run,
            trip: false,
            reason: Some(reason),
        };
    }
    Evaluation { state: AgentState::Healthy, directive: ControlDirective::Run, trip: false, reason: None }
}

/// Evaluates an agent at instant `now` whose last heartbeat arrived at
/// `last_seen`.
pub fn evaluate(
    now: Timestamp,
    last_seen: Timestamp,
    armed: bool,
    consecutive_failures: i32,
    current_directive: ControlDirective,
    policy: &DeadmanPolicy,
) -> (e: Evaluation)
    ensures
        e@ == verdict(
            heartbeat_age(whole_seconds_between(now.spec_nanos(), last_seen.spec_nanos())),
            armed,
            consecutive_failures as int,
            current_directive,
            *policy,
        ),
{
    let elapsed = now.whole_seconds_since(&last_seen);
    evaluate_elapsed(elapsed, armed, consecutive_failures, current_directive, policy)
}

} // verus!
