//! What a watchdog reports and what the control plane knows of an agent.
use vstd::prelude::*;
use crate::clock::{Timestamp, whole_seconds_between};
use crate::control::ApiError;
use crate::evaluation::{evaluate, heartbeat_age, verdict, Evaluation};
use crate::policy::DeadmanPolicy;
use crate::status::{AgentState, ControlDirective};
use crate::text::{trim, trimmed_from};

verus! {

/// Free-form JSON metadata, carried through unread.
#[verifier::external_type_specification]
#[verifier::external_body]
pub struct ExJsonValue(serde_json::Value);

/// A watchdog's periodic report.
#[derive(Debug)]
pub struct AgentHeartbeat {
    /// The agent's UUID as a 128-bit value.
    pub agent_id: u128,
    pub name: String,
    pub platform: String,
    pub arch: String,
    pub version: String,
    pub workload_running: bool,
    pub workload_pid: Option<u32>,
    pub consecutive_failures: i32,
    pub metadata: serde_json::Value,
}

impl AgentHeartbeat {
    /// The reported name without surrounding whitespace, which is stored;
    /// a blank name is refused with 400.
    pub fn validated_name(&self) -> (r: Result<&str, ApiError>)
        ensures
            exists|t: Seq<char>|
                trimmed_from(self.name@, t) && if t.len() == 0 {
                    r matches Err(e) && e.status == 400 && e.message@
                        == "agent name cannot be empty"@
                } else {
                    r matches Ok(n) && n@ == t
                },
    {
        let t = trim(self.name.as_str());
        if t.unicode_len() == 0 {
            Err(ApiError::bad("agent name cannot be empty"))
        } else {
            Ok(t)
        }
    }
}

/// The control plane's record of an agent.
#[derive(Debug)]
pub struct AgentView {
    /// The agent's UUID as a 128-bit value.
    pub agent_id: u128,
    pub name: String,
    pub platform: String,
    pub arch: String,
    pub version: String,
    pub state: AgentState,
    pub directive: ControlDirective,
    pub armed: bool,
    pub workload_running: bool,
    pub workload_pid: Option<i64>,
    pub consecutive_failures: i32,
    pub last_seen: Timestamp,
    pub policy: DeadmanPolicy,
    pub metadata: serde_json::Value,
}

impl AgentView {
    /// The containment decision for this agent at instant `now`.
    pub fn evaluate_at(&self, now: Timestamp) -> (e: Evaluation)
        ensures
            e@ == verdict(
                heartbeat_age(whole_seconds_between(now.spec_nanos(), self.last_seen.spec_nanos())),
                self.armed,
                self.consecutive_failures as int,
                self.directive,
                self.policy,
            ),
    {
        evaluate(now, self.last_seen, self.armed, self.consecutive_failures, self.directive, &self.policy)
    }
}

} // verus!
