//! Deterministic containment policy for supervised agents.
//!
//! The library decides, from an agent's heartbeat age, failure count, arming
//! and current directive, which state the agent is in and whether its
//! workload may keep running. The control plane and the node-side watchdog
//! perform the I/O around these decisions.
use vstd::prelude::*;

pub mod text;
pub mod status;
pub mod clock;
pub mod policy;
pub mod evaluation;
pub mod laws;
pub mod control;
pub mod watchdog;
pub mod identity;
pub mod records;

pub use evaluation::{evaluate, Evaluation};
pub use policy::DeadmanPolicy;
pub use records::{AgentHeartbeat, AgentView};
pub use status::{AgentState, ControlDirective};

verus! {

/// Fixed provenance watermark carried by every response and event.
pub const WATERMARK: &'static str = "\":\"";

/// Fixed provenance origin carried by every response and event.
pub const ORIGIN: &'static str = "urn:titanu:marathon:agent-deadman-switch";

} // verus!
