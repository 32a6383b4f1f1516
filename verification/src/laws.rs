//! Properties that hold of every containment decision.
use vstd::prelude::*;
use crate::clock::whole_seconds_between;
use crate::evaluation::{heartbeat_age, verdict, EvaluationView};
use crate::policy::DeadmanPolicy;
use crate::status::{AgentState, ControlDirective};
use crate::text::decimal;

verus! {

/// How far an agent has escalated: healthy, then suspect, then tripped.
pub open spec fn severity(s: AgentState) -> int {
    match s {
        AgentState::Healthy => 0,
        AgentState::Suspect => 1,
        AgentState::Tripped => 2,
        _ => 3,
    }
}

/// A trip always contains the workload: a tripping decision reports the
/// `Tripped` state and the `Contain` directive.
pub proof fn lemma_trip_contains(
    age: int,
    armed: bool,
    failures: int,
    current: ControlDirective,
    policy: DeadmanPolicy,
)
    ensures
        verdict(age, armed, failures, current, policy).trip ==> {
            &&& verdict(age, armed, failures, current, policy).state == AgentState::Tripped
            &&& verdict(age, armed, failures, current, policy).directive == ControlDirective::Contain
        },
{
}

/// Disarmed supervision never contains: a disarmed agent is healthy, may
/// run, never trips and carries no reason, whatever its age, failures or
/// directive.
pub proof fn lemma_disarmed_agent_runs(
    age: int,
    failures: int,
    current: ControlDirective,
    policy: DeadmanPolicy,
)
    ensures
        verdict(age, false, failures, current, policy) == (EvaluationView {
            state: AgentState::Healthy,
            directive: ControlDirective::Run,
            trip: false,
            reason: None,
        }),
{
}

/// A manual contain or stop holds while the agent is armed: the agent stays
/// contained under the same directive, without a new trip, however fresh
/// its heartbeat.
pub proof fn lemma_manual_directive_holds(
    age: int,
    failures: int,
    current: ControlDirective,
    policy: DeadmanPolicy,
)
    requires
        current != ControlDirective::Run,
    ensures
        verdict(age, true, failures, current, policy) == (EvaluationView {
            state: AgentState::Contained,
            directive: current,
            trip: false,
            reason: None,
        }),
{
}

/// After a trip the workload stays contained: evaluating the agent again
/// under the directive the trip produced keeps it contained, with no second
/// trip, whatever its later heartbeat age or failure count.
pub proof fn lemma_trip_is_sticky(
    age1: int,
    failures1: int,
    age2: int,
    failures2: int,
    policy: DeadmanPolicy,
)
    requires
        verdict(age1, true, failures1, ControlDirective::Run, policy).trip,
    ensures
        ({
            let next = verdict(
                age2,
                true,
                failures2,
                verdict(age1, true, failures1, ControlDirective::Run, policy).directive,
                policy,
            );
            &&& next.state == AgentState::Contained
            &&& next.directive == ControlDirective::Contain
            &&& !next.trip
        }),
{
}

/// Fail-closed policies contain lost agents: an armed, running agent whose
/// heartbeat has reached the hard timeout is tripped and contained.
pub proof fn lemma_fail_closed_contains_lost_agent(
    age: int,
    failures: int,
    policy: DeadmanPolicy,
)
    requires
        policy.fail_closed,
        age >= policy.hard_timeout_secs,
    ensures
        verdict(age, true, failures, ControlDirective::Run, policy).state == AgentState::Tripped,
        verdict(age, true, failures, ControlDirective::Run, policy).directive == ControlDirective::Contain,
        verdict(age, true, failures, ControlDirective::Run, policy).trip,
{
}

/// Fail-open policies never contain on a timeout alone: below the failure
/// threshold a running agent keeps running, however old its heartbeat.
pub proof fn lemma_fail_open_keeps_running(age: int, failures: int, policy: DeadmanPolicy)
    requires
        !policy.fail_closed,
        failures < policy.max_consecutive_failures,
    ensures
        verdict(age, true, failures, ControlDirective::Run, policy).directive == ControlDirective::Run,
        !verdict(age, true, failures, ControlDirective::Run, policy).trip,
{
}

/// A reason is given exactly when the agent is suspect or tripped.
pub proof fn lemma_reason_iff_alert(
    age: int,
    armed: bool,
    failures: int,
    current: ControlDirective,
    policy: DeadmanPolicy,
)
    ensures
        verdict(age, armed, failures, current, policy).reason is Some <==> (
        verdict(age, armed, failures, current, policy).state == AgentState::Suspect
            || verdict(age, armed, failures, current, policy).state == AgentState::Tripped),
{
}

/// The workload is held back only by a trip or by an operator's directive:
/// a decision other than `Run` comes from a trip or from an armed agent
/// already under contain or stop.
pub proof fn lemma_containment_has_a_cause(
    age: int,
    armed: bool,
    failures: int,
    current: ControlDirective,
    policy: DeadmanPolicy,
)
    ensures
        verdict(age, armed, failures, current, policy).directive != ControlDirective::Run ==> (
        verdict(age, armed, failures, current, policy).trip || (armed && current
            != ControlDirective::Run)),
{
}

/// An older heartbeat never yields a milder state: with everything else
/// fixed, severity does not decrease as the heartbeat ages.
pub proof fn lemma_severity_monotone_in_age(
    age1: int,
    age2: int,
    armed: bool,
    failures: int,
    current: ControlDirective,
    policy: DeadmanPolicy,
)
    requires
        age1 <= age2,
    ensures
        severity(verdict(age1, armed, failures, current, policy).state) <= severity(
            verdict(age2, armed, failures, current, policy).state,
        ),
{
}

/// More consecutive failures never yield a milder state.
pub proof fn lemma_severity_monotone_in_failures(
    age: int,
    armed: bool,
    failures1: int,
    failures2: int,
    current: ControlDirective,
    policy: DeadmanPolicy,
)
    requires
        failures1 <= failures2,
    ensures
        severity(verdict(age, armed, failures1, current, policy).state) <= severity(
            verdict(age, armed, failures2, current, policy).state,
        ),
{
}

/// Under an acceptable policy a running agent below the failure threshold
/// moves through healthy, suspect and tripped exactly at the warning and
/// hard thresholds.
pub proof fn lemma_escalation_thresholds(age: int, failures: int, policy: DeadmanPolicy)
    requires
        crate::policy::policy_is_acceptable(policy),
        failures < policy.max_consecutive_failures,
        age >= 0,
    ensures
        verdict(age, true, failures, ControlDirective::Run, policy).state == (if age
            < policy.heartbeat_timeout_secs {
            AgentState::Healthy
        } else if age < policy.hard_timeout_secs {
            AgentState::Suspect
        } else {
            AgentState::Tripped
        }),
{
}

/// The evaluator only ever reports healthy, suspect, tripped or contained:
/// recovery and going offline are set by operators, never decided.
pub proof fn lemma_decided_states(
    age: int,
    armed: bool,
    failures: int,
    current: ControlDirective,
    policy: DeadmanPolicy,
)
    ensures
        ({
            let s = verdict(age, armed, failures, current, policy).state;
            s == AgentState::Healthy || s == AgentState::Suspect || s == AgentState::Tripped || s
                == AgentState::Contained
        }),
{
}

/// Recovery always completes: an agent an operator returned to `run` is
/// moved out of `recovering` and reported by the very next evaluation.
pub proof fn lemma_recovery_completes(
    age: int,
    armed: bool,
    failures: int,
    policy: DeadmanPolicy,
)
    ensures
        ({
            let v = verdict(age, armed, failures, ControlDirective::Run, policy);
            crate::control::reevaluation_outcome(
                AgentState::Recovering,
                ControlDirective::Run,
                v.state,
                v.directive,
                v.trip,
            ) is Some
        }),
{
}

/// The periodic evaluator settles within two passes: while heartbeat age,
/// failures, arming and policy stay the same, each pass stores the decision
/// it reached, the second pass changes anything only after a trip, and the
/// third changes and records nothing.
pub proof fn lemma_evaluator_settles(
    age: int,
    armed: bool,
    failures: int,
    directive0: ControlDirective,
    policy: DeadmanPolicy,
)
    ensures
        ({
            let v1 = verdict(age, armed, failures, directive0, policy);
            let v2 = verdict(age, armed, failures, v1.directive, policy);
            let v3 = verdict(age, armed, failures, v2.directive, policy);
            &&& crate::control::reevaluation_outcome(
                v1.state,
                v1.directive,
                v2.state,
                v2.directive,
                v2.trip,
            ) is Some ==> v1.trip
            &&& crate::control::reevaluation_outcome(
                v2.state,
                v2.directive,
                v3.state,
                v3.directive,
                v3.trip,
            ) is None
        }),
{
}

/// The failure threshold trips, whatever the threshold: an armed, running
/// agent whose consecutive failures reach the policy's maximum is tripped
/// into containment, with the failure count as reason, however fresh its
/// heartbeat.
pub proof fn lemma_failure_threshold_trips(age: int, failures: int, policy: DeadmanPolicy)
    requires
        failures >= policy.max_consecutive_failures,
    ensures
        verdict(age, true, failures, ControlDirective::Run, policy) == (EvaluationView {
            state: AgentState::Tripped,
            directive: ControlDirective::Contain,
            trip: true,
            reason: Some("consecutive_failures="@ + decimal(failures)),
        }),
{
}

/// The hard timeout: below the failure threshold, an armed, running agent
/// whose heartbeat is at least the hard timeout old is tripped; it is
/// contained, and the trip counted, exactly under a fail-closed policy.
pub proof fn lemma_hard_timeout_trips(age: int, failures: int, policy: DeadmanPolicy)
    requires
        failures < policy.max_consecutive_failures,
        age >= policy.hard_timeout_secs,
    ensures
        verdict(age, true, failures, ControlDirective::Run, policy).state == AgentState::Tripped,
        verdict(age, true, failures, ControlDirective::Run, policy).trip == policy.fail_closed,
        (verdict(age, true, failures, ControlDirective::Run, policy).directive
            == ControlDirective::Contain) == policy.fail_closed,
        (verdict(age, true, failures, ControlDirective::Run, policy).directive
            == ControlDirective::Run) == !policy.fail_closed,
        verdict(age, true, failures, ControlDirective::Run, policy).reason == Some(
            "hard heartbeat timeout age="@ + decimal(age) + "s"@,
        ),
{
}

/// A late heartbeat: below the failure threshold and the hard timeout, an
/// armed, running agent whose heartbeat is at least the warning threshold
/// old is suspect, keeps running, and does not trip.
pub proof fn lemma_late_heartbeat_is_suspect(age: int, failures: int, policy: DeadmanPolicy)
    requires
        failures < policy.max_consecutive_failures,
        policy.heartbeat_timeout_secs <= age < policy.hard_timeout_secs,
    ensures
        verdict(age, true, failures, ControlDirective::Run, policy) == (EvaluationView {
            state: AgentState::Suspect,
            directive: ControlDirective::Run,
            trip: false,
            reason: Some("heartbeat late age="@ + decimal(age) + "s"@),
        }),
{
}

/// A fresh heartbeat: below the failure threshold and both timeouts, an
/// armed, running agent is healthy, keeps running, and needs no reason.
pub proof fn lemma_fresh_heartbeat_is_healthy(age: int, failures: int, policy: DeadmanPolicy)
    requires
        failures < policy.max_consecutive_failures,
        age < policy.heartbeat_timeout_secs,
        age < policy.hard_timeout_secs,
    ensures
        verdict(age, true, failures, ControlDirective::Run, policy) == (EvaluationView {
            state: AgentState::Healthy,
            directive: ControlDirective::Run,
            trip: false,
            reason: None,
        }),
{
}

/// The heartbeat age is the elapsed time when it is not negative, and zero
/// for a heartbeat that lies in the future.
pub proof fn lemma_heartbeat_age(elapsed: int)
    ensures
        heartbeat_age(elapsed) >= 0,
        elapsed >= 0 ==> heartbeat_age(elapsed) == elapsed,
        elapsed < 0 ==> heartbeat_age(elapsed) == 0,
{
}

/// Whole seconds truncate toward zero: the result is the largest whole
/// number of seconds that fits in the distance, with the distance's sign.
pub proof fn lemma_whole_seconds_truncate(a: int, b: int)
    ensures
        a - b >= 0 ==> whole_seconds_between(a, b) >= 0 && whole_seconds_between(a, b)
            * 1_000_000_000 <= a - b < (whole_seconds_between(a, b) + 1) * 1_000_000_000,
        a - b < 0 ==> whole_seconds_between(a, b) <= 0 && (whole_seconds_between(a, b) - 1)
            * 1_000_000_000 < a - b <= whole_seconds_between(a, b) * 1_000_000_000,
{
    let d = a - b;
    if d >= 0 {
        vstd::arithmetic::div_mod::lemma_fundamental_div_mod(d, 1_000_000_000);
        vstd::arithmetic::div_mod::lemma_div_pos_is_pos(d, 1_000_000_000);
        assert(0 <= d % 1_000_000_000 < 1_000_000_000) by {
            vstd::arithmetic::div_mod::lemma_mod_bound(d, 1_000_000_000);
        }
    } else {
        vstd::arithmetic::div_mod::lemma_fundamental_div_mod(-d, 1_000_000_000);
        vstd::arithmetic::div_mod::lemma_div_pos_is_pos(-d, 1_000_000_000);
        assert(0 <= (-d) % 1_000_000_000 < 1_000_000_000) by {
            vstd::arithmetic::div_mod::lemma_mod_bound(-d, 1_000_000_000);
        }
    }
}

/// Whole seconds between two instants grow with the later instant.
pub proof fn lemma_whole_seconds_monotone(a1: int, a2: int, b: int)
    requires
        a1 <= a2,
    ensures
        whole_seconds_between(a1, b) <= whole_seconds_between(a2, b),
{
    let d1 = a1 - b;
    let d2 = a2 - b;
    if d1 >= 0 {
        vstd::arithmetic::div_mod::lemma_div_is_ordered(d1, d2, 1_000_000_000);
    } else if d2 >= 0 {
        vstd::arithmetic::div_mod::lemma_div_pos_is_pos(-d1, 1_000_000_000);
        vstd::arithmetic::div_mod::lemma_div_pos_is_pos(d2, 1_000_000_000);
    } else {
        vstd::arithmetic::div_mod::lemma_div_is_ordered(-d2, -d1, 1_000_000_000);
    }
}

/// Whole seconds between two instants depend only on their distance.
pub proof fn lemma_whole_seconds_shift(a: int, b: int, k: int)
    ensures
        whole_seconds_between(a + k, b + k) == whole_seconds_between(a, b),
{
}

/// Escalation over time: evaluating the same agent later, against the same
/// last heartbeat, never yields a milder state.
pub proof fn lemma_later_evaluation_not_milder(
    now1: int,
    now2: int,
    last_seen: int,
    armed: bool,
    failures: int,
    current: ControlDirective,
    policy: DeadmanPolicy,
)
    requires
        now1 <= now2,
    ensures
        severity(
            verdict(
                heartbeat_age(whole_seconds_between(now1, last_seen)),
                armed,
                failures,
                current,
                policy,
            ).state,
        ) <= severity(
            verdict(
                heartbeat_age(whole_seconds_between(now2, last_seen)),
                armed,
                failures,
                current,
                policy,
            ).state,
        ),
{
    lemma_whole_seconds_monotone(now1, now2, last_seen);
    lemma_severity_monotone_in_age(
        heartbeat_age(whole_seconds_between(now1, last_seen)),
        heartbeat_age(whole_seconds_between(now2, last_seen)),
        armed,
        failures,
        current,
        policy,
    );
}

} // verus!
