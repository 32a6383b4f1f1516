use chrono::{DateTime, Duration, Utc};
use deadman_core::clock::Timestamp;
use deadman_core::evaluation::evaluate_elapsed;
use deadman_core::{evaluate, AgentState, ControlDirective, DeadmanPolicy, WATERMARK};

fn ts(dt: DateTime<Utc>) -> Timestamp {
    Timestamp::from_unix(dt.timestamp(), dt.timestamp_subsec_nanos()).expect("representable instant")
}

#[test]
fn healthy_agent_remains_running() {
    let now = Utc::now();

    let result = evaluate(
        ts(now),
        ts(now - Duration::seconds(2)),
        true,
        0,
        ControlDirective::Run,
        &DeadmanPolicy::default(),
    );

    assert_eq!(result.state, AgentState::Healthy);
    assert_eq!(result.directive, ControlDirective::Run);
    assert!(!result.trip);
}

#[test]
fn late_agent_becomes_suspect() {
    let now = Utc::now();

    let result = evaluate(
        ts(now),
        ts(now - Duration::seconds(20)),
        true,
        0,
        ControlDirective::Run,
        &DeadmanPolicy::default(),
    );

    assert_eq!(result.state, AgentState::Suspect);
    assert!(!result.trip);
}

#[test]
fn hard_timeout_trips_fail_closed_agent() {
    let now = Utc::now();

    let result = evaluate(
        ts(now),
        ts(now - Duration::seconds(40)),
        true,
        0,
        ControlDirective::Run,
        &DeadmanPolicy::default(),
    );

    assert_eq!(result.state, AgentState::Tripped);
    assert_eq!(result.directive, ControlDirective::Contain);
    assert!(result.trip);
}

#[test]
fn failure_threshold_trips() {
    let now = Utc::now();

    let result = evaluate(ts(now), ts(now), true, 3, ControlDirective::Run, &DeadmanPolicy::default());

    assert!(result.trip);
    assert_eq!(result.directive, ControlDirective::Contain);
}

#[test]
fn disarmed_agent_runs() {
    let now = Utc::now();

    let result = evaluate(
        ts(now),
        ts(now - Duration::hours(1)),
        false,
        999,
        ControlDirective::Run,
        &DeadmanPolicy::default(),
    );

    assert_eq!(result.directive, ControlDirective::Run);
    assert!(!result.trip);
}

#[test]
fn watermark_is_fixed() {
    assert_eq!(WATERMARK, "\":\"");
}

#[test]
fn origin_is_fixed() {
    assert_eq!(deadman_core::ORIGIN, "urn:titanu:marathon:agent-deadman-switch");
}

#[test]
fn default_policy_values() {
    let p = DeadmanPolicy::default();
    assert_eq!(p.heartbeat_timeout_secs, 15);
    assert_eq!(p.hard_timeout_secs, 30);
    assert_eq!(p.max_consecutive_failures, 3);
    assert!(p.fail_closed);
}

#[test]
fn reasons_carry_exact_text() {
    let p = DeadmanPolicy::default();
    let e = evaluate_elapsed(20, true, 0, ControlDirective::Run, &p);
    assert_eq!(e.reason.as_deref(), Some("heartbeat late age=20s"));
    let e = evaluate_elapsed(40, true, 0, ControlDirective::Run, &p);
    assert_eq!(e.reason.as_deref(), Some("hard heartbeat timeout age=40s"));
    let e = evaluate_elapsed(0, true, 3, ControlDirective::Run, &p);
    assert_eq!(e.reason.as_deref(), Some("consecutive_failures=3"));
    let e = evaluate_elapsed(0, true, 1234567, ControlDirective::Run, &p);
    assert_eq!(e.reason.as_deref(), Some("consecutive_failures=1234567"));
    let e = evaluate_elapsed(2, true, 0, ControlDirective::Run, &p);
    assert_eq!(e.reason, None);
}

#[test]
fn thresholds_are_inclusive() {
    let p = DeadmanPolicy::default();
    assert_eq!(evaluate_elapsed(14, true, 2, ControlDirective::Run, &p).state, AgentState::Healthy);
    assert_eq!(evaluate_elapsed(15, true, 2, ControlDirective::Run, &p).state, AgentState::Suspect);
    assert_eq!(evaluate_elapsed(29, true, 2, ControlDirective::Run, &p).state, AgentState::Suspect);
    assert_eq!(evaluate_elapsed(30, true, 2, ControlDirective::Run, &p).state, AgentState::Tripped);
}

#[test]
fn future_heartbeat_counts_as_fresh() {
    let p = DeadmanPolicy::default();
    let e = evaluate_elapsed(-500, true, 0, ControlDirective::Run, &p);
    assert_eq!(e.state, AgentState::Healthy);
    assert_eq!(e.reason, None);
}

#[test]
fn fail_open_timeout_trips_without_containing() {
    let p = DeadmanPolicy { fail_closed: false, ..DeadmanPolicy::default() };
    let e = evaluate_elapsed(31, true, 0, ControlDirective::Run, &p);
    assert_eq!(e.state, AgentState::Tripped);
    assert_eq!(e.directive, ControlDirective::Run);
    assert!(!e.trip);
    assert_eq!(e.reason.as_deref(), Some("hard heartbeat timeout age=31s"));
}

#[test]
fn failures_take_precedence_over_timeout() {
    let p = DeadmanPolicy { fail_closed: false, ..DeadmanPolicy::default() };
    let e = evaluate_elapsed(100, true, 3, ControlDirective::Run, &p);
    assert!(e.trip);
    assert_eq!(e.directive, ControlDirective::Contain);
    assert_eq!(e.reason.as_deref(), Some("consecutive_failures=3"));
}

#[test]
fn manual_containment_holds() {
    let p = DeadmanPolicy::default();
    for d in [ControlDirective::Contain, ControlDirective::Stop] {
        let e = evaluate_elapsed(0, true, 0, d, &p);
        assert_eq!(e.state, AgentState::Contained);
        assert_eq!(e.directive, d);
        assert!(!e.trip);
        assert_eq!(e.reason, None);
    }
}

#[test]
fn trip_is_sticky_on_next_evaluation() {
    let p = DeadmanPolicy::default();
    let first = evaluate_elapsed(45, true, 0, ControlDirective::Run, &p);
    assert!(first.trip);
    let next = evaluate_elapsed(0, true, 0, first.directive, &p);
    assert_eq!(next.state, AgentState::Contained);
    assert_eq!(next.directive, ControlDirective::Contain);
    assert!(!next.trip);
}

#[test]
fn later_evaluation_is_not_milder() {
    let now = Utc::now();
    let last = now - Duration::seconds(10);
    let p = DeadmanPolicy::default();
    let severity = |s: AgentState| match s {
        AgentState::Healthy => 0,
        AgentState::Suspect => 1,
        AgentState::Tripped => 2,
        _ => 3,
    };
    let mut prev = 0;
    for extra in [0i64, 4, 5, 19, 20, 21, 100] {
        let e = evaluate(ts(now + Duration::seconds(extra)), ts(last), true, 0, ControlDirective::Run, &p);
        assert!(severity(e.state) >= prev);
        prev = severity(e.state);
    }
    assert_eq!(prev, 2);
}

#[test]
fn sub_second_ages_truncate() {
    let now = Utc::now();
    let p = DeadmanPolicy::default();
    let e = evaluate(
        ts(now),
        ts(now - Duration::milliseconds(14_999)),
        true,
        0,
        ControlDirective::Run,
        &p,
    );
    assert_eq!(e.state, AgentState::Healthy);
    let e = evaluate(
        ts(now),
        ts(now - Duration::milliseconds(15_000)),
        true,
        0,
        ControlDirective::Run,
        &p,
    );
    assert_eq!(e.state, AgentState::Suspect);
    assert_eq!(e.reason.as_deref(), Some("heartbeat late age=15s"));
}

#[test]
fn evaluator_settles_within_two_passes() {
    let p = DeadmanPolicy::default();
    for (age, failures, d0) in [
        (45i64, 0i32, ControlDirective::Run),
        (20, 0, ControlDirective::Run),
        (0, 5, ControlDirective::Run),
        (0, 0, ControlDirective::Stop),
    ] {
        let v1 = evaluate_elapsed(age, true, failures, d0, &p);
        let v2 = evaluate_elapsed(age, true, failures, v1.directive, &p);
        let v3 = evaluate_elapsed(age, true, failures, v2.directive, &p);
        assert!(v1.trip || (v2.state, v2.directive) == (v1.state, v1.directive));
        assert_eq!((v3.state, v3.directive), (v2.state, v2.directive));
    }
}
