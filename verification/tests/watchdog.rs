use chrono::Utc;
use deadman_core::clock::Timestamp;
use deadman_core::identity::{resolve_agent_id, settle_agent_id, AgentIdError};
use deadman_core::policy::DeadmanPolicy;
use deadman_core::records::{AgentHeartbeat, AgentView};
use deadman_core::status::{AgentState, ControlDirective};
use deadman_core::watchdog::{
    agent_name, launch_needed, workload_command, DirectiveAction, FailureCounter, Watchdog,
    WatchdogControl,
};

#[test]
fn watchdog_starts_armed_with_default_policy() {
    let c = WatchdogControl::initial();
    assert!(c.armed);
    assert_eq!(c.directive, ControlDirective::Run);
    assert_eq!(c.policy, DeadmanPolicy::default());
    assert!(c.supervises_workload());
    assert_eq!(c.directive_action(), DirectiveAction::Proceed);
}

#[test]
fn watchdog_follows_directives() {
    let mut c = WatchdogControl::initial();
    c.adopt(ControlDirective::Contain, true, DeadmanPolicy::default());
    assert!(!c.supervises_workload());
    assert_eq!(c.directive_action(), DirectiveAction::Contain);
    c.adopt(ControlDirective::Stop, true, DeadmanPolicy::default());
    assert_eq!(c.directive_action(), DirectiveAction::ContainAndExit);
    c.adopt(ControlDirective::Run, false, DeadmanPolicy::default());
    assert!(!c.supervises_workload());
}

#[test]
fn fail_closed_after_hard_timeout_without_contact() {
    let c = WatchdogControl::initial();
    assert!(!c.fail_closed_due(29));
    assert!(c.fail_closed_due(30));
    assert!(c.fail_closed_due(3000));
    let mut open = c;
    open.adopt(ControlDirective::Run, true, DeadmanPolicy { fail_closed: false, ..DeadmanPolicy::default() });
    assert!(!open.fail_closed_due(3000));
    let mut disarmed = c;
    disarmed.adopt(ControlDirective::Run, false, DeadmanPolicy::default());
    assert!(!disarmed.fail_closed_due(3000));
    let mut zero = c;
    zero.adopt(ControlDirective::Run, true, DeadmanPolicy { hard_timeout_secs: -5, ..DeadmanPolicy::default() });
    assert!(!zero.fail_closed_due(0));
    assert!(zero.fail_closed_due(1));
}

#[test]
fn failures_are_counted() {
    let mut f = FailureCounter::new();
    assert_eq!(f.consecutive_failures, 0);
    f.record_failure();
    f.record_failure();
    assert_eq!(f.consecutive_failures, 2);
    assert!(launch_needed(false, true));
    assert!(!launch_needed(true, true));
    assert!(!launch_needed(false, false));
}

#[test]
fn workload_commands() {
    let w = workload_command(Some("/bin/agent".to_string()), Some("  --serve  --port 8000 ".to_string()));
    assert_eq!(w.program.as_deref(), Some("/bin/agent"));
    assert_eq!(w.args, vec!["--serve".to_string(), "--port".to_string(), "8000".to_string()]);
    let w = workload_command(Some("   ".to_string()), None);
    assert_eq!(w.program, None);
    assert!(w.args.is_empty());
    let w = workload_command(Some(" padded ".to_string()), Some(String::new()));
    assert_eq!(w.program.as_deref(), Some(" padded "));
    assert!(w.args.is_empty());
}

#[test]
fn agent_names() {
    assert_eq!(agent_name(Some("edge-1".into()), Some("host".into()), "aarch64"), "edge-1");
    assert_eq!(agent_name(Some(" \t".into()), Some("host".into()), "aarch64"), "host");
    assert_eq!(agent_name(None, None, "aarch64"), "agent-aarch64");
    assert_eq!(agent_name(Some("".into()), None, "x86_64"), "agent-x86_64");
}

#[test]
fn agent_ids() {
    let text = "550e8400-e29b-41d4-a716-446655440000";
    let want = uuid::Uuid::parse_str(text).unwrap().as_u128();
    let r = resolve_agent_id(Some(text), Some("garbage")).unwrap();
    assert_eq!(r.id, want);
    assert!(!r.generated);
    assert_eq!(resolve_agent_id(Some("garbage"), Some(text)), Err(AgentIdError::InvalidConfigured));
    let r = resolve_agent_id(None, Some("  550e8400-e29b-41d4-a716-446655440000\n")).unwrap();
    assert_eq!(r.id, want);
    assert!(!r.generated);
    assert_eq!(resolve_agent_id(None, Some("nope\n")), Err(AgentIdError::InvalidStored));
    let r = resolve_agent_id(None, None).unwrap();
    assert!(r.generated);
    let u = uuid::Uuid::from_u128(r.id);
    assert_eq!(u.get_version_num(), 4);
    assert_eq!(u.get_variant(), uuid::Variant::RFC4122);
    assert_ne!(resolve_agent_id(None, None).unwrap().id, r.id);
}

fn heartbeat_named(name: &str) -> AgentHeartbeat {
    AgentHeartbeat {
        agent_id: 7,
        name: name.to_string(),
        platform: "linux".into(),
        arch: "x86_64".into(),
        version: "0.1.0".into(),
        workload_running: true,
        workload_pid: Some(42),
        consecutive_failures: 0,
        metadata: serde_json::Value::Null,
    }
}

#[test]
fn heartbeat_names_are_trimmed() {
    assert_eq!(heartbeat_named("  node-a \n").validated_name().unwrap(), "node-a");
    let e = heartbeat_named(" \t ").validated_name().unwrap_err();
    assert_eq!(e.status, 400);
    assert_eq!(e.message, "agent name cannot be empty");
    assert!(heartbeat_named("").validated_name().is_err());
}

#[test]
fn agent_view_evaluation() {
    let now = Utc::now();
    let last = now - chrono::Duration::seconds(35);
    let view = AgentView {
        agent_id: 1,
        name: "n".into(),
        platform: "linux".into(),
        arch: "x86_64".into(),
        version: "0.1.0".into(),
        state: AgentState::Healthy,
        directive: ControlDirective::Run,
        armed: true,
        workload_running: true,
        workload_pid: None,
        consecutive_failures: 0,
        last_seen: Timestamp::from_unix(last.timestamp(), last.timestamp_subsec_nanos()).unwrap(),
        policy: DeadmanPolicy::default(),
        metadata: serde_json::Value::Null,
    };
    let e = view.evaluate_at(Timestamp::from_unix(now.timestamp(), now.timestamp_subsec_nanos()).unwrap());
    assert_eq!(e.state, AgentState::Tripped);
    assert_eq!(e.directive, ControlDirective::Contain);
    assert!(e.trip);
}

#[test]
fn agent_id_texts() {
    let text = "550e8400-e29b-41d4-a716-446655440000";
    let id = uuid::Uuid::parse_str(text).unwrap().as_u128();
    assert_eq!(deadman_core::identity::agent_id_text(id), text);
    assert_eq!(deadman_core::control::event_key(Some(id)), text);
    assert_eq!(deadman_core::control::event_key(None), "deadman-control");
    let r = resolve_agent_id(None, Some(&deadman_core::identity::agent_id_text(id))).unwrap();
    assert_eq!(r.id, id);
}

#[test]
fn generated_identity_is_read_back_on_next_start() {
    let first = settle_agent_id(None, None).unwrap();
    assert!(first.identity.generated);
    let text = first.to_store.clone().expect("a generated id is stored");
    assert_eq!(text, uuid::Uuid::from_u128(first.identity.id).to_string());
    let second = settle_agent_id(None, Some(&text)).unwrap();
    assert_eq!(second.identity.id, first.identity.id);
    assert!(!second.identity.generated);
    assert!(second.to_store.is_none());
    let third = settle_agent_id(None, Some(&format!("{text}\n"))).unwrap();
    assert_eq!(third.identity.id, first.identity.id);
}

#[test]
fn configured_identity_stores_nothing() {
    let text = "550e8400-e29b-41d4-a716-446655440000";
    let s = settle_agent_id(Some(text), None).unwrap();
    assert!(s.to_store.is_none());
    assert!(!s.identity.generated);
    assert_eq!(settle_agent_id(Some("bad"), None).unwrap_err(), AgentIdError::InvalidConfigured);
    assert_eq!(settle_agent_id(None, Some("bad")).unwrap_err(), AgentIdError::InvalidStored);
}

#[test]
fn control_replies_never_change_the_workload() {
    let mut w = Watchdog::configure(Some("/bin/agent".into()), Some("--serve --port 8000".into()));
    assert!(w.control().armed);
    assert_eq!(w.control().directive, ControlDirective::Run);
    let before = (w.command().program.clone(), w.command().args.clone());
    w.adopt(ControlDirective::Contain, false, DeadmanPolicy { fail_closed: false, ..DeadmanPolicy::default() });
    assert_eq!(w.control().directive, ControlDirective::Contain);
    assert!(!w.control().armed);
    assert!(!w.control().policy.fail_closed);
    assert_eq!((w.command().program.clone(), w.command().args.clone()), before);
}
