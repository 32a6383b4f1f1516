//! Agent states and control directives, with their stored text forms.
use vstd::prelude::*;
use crate::text::str_eq;

verus! {

/// Supervision state of an agent.
#[derive(Debug, Clone, Copy, PartialEq, Eq, Structural)]
pub enum AgentState {
    Healthy,
    Suspect,
    Tripped,
    Contained,
    Recovering,
    Offline,
}

/// What the node-side watchdog is told to do with its workload.
#[derive(Debug, Clone, Copy, PartialEq, Eq, Structural)]
pub enum ControlDirective {
    Run,
    Contain,
    Stop,
}

/// The stored (snake case) name of a state.
pub open spec fn state_name(s: AgentState) -> Seq<char> {
    match s {
        AgentState::Healthy => "healthy"@,
        AgentState::Suspect => "suspect"@,
        AgentState::Tripped => "tripped"@,
        AgentState::Contained => "contained"@,
        AgentState::Recovering => "recovering"@,
        AgentState::Offline => "offline"@,
    }
}

/// The stored (snake case) name of a directive.
pub open spec fn directive_name(d: ControlDirective) -> Seq<char> {
    match d {
        ControlDirective::Run => "run"@,
        ControlDirective::Contain => "contain"@,
        ControlDirective::Stop => "stop"@,
    }
}

/// Reading a stored state name; anything unknown reads as `Healthy`.
pub open spec fn state_from_name(v: Seq<char>) -> AgentState {
    if v == "suspect"@ {
        AgentState::Suspect
    } else if v == "tripped"@ {
        AgentState::Tripped
    } else if v == "contained"@ {
        AgentState::Contained
    } else if v == "recovering"@ {
        AgentState::Recovering
    } else if v == "offline"@ {
        AgentState::Offline
    } else {
        AgentState::Healthy
    }
}

/// Reading a stored directive name; anything unknown reads as `Run`.
pub open spec fn directive_from_name(v: Seq<char>) -> ControlDirective {
    if v == "contain"@ {
        ControlDirective::Contain
    } else if v == "stop"@ {
        ControlDirective::Stop
    } else {
        ControlDirective::Run
    }
}

impl AgentState {
    pub fn as_str(self) -> (s: &'static str)
        ensures
            s@ == state_name(self),
    {
        match self {
            AgentState::Healthy => "healthy",
            AgentState::Suspect => "suspect",
            AgentState::Tripped => "tripped",
            AgentState::Contained => "contained",
            AgentState::Recovering => "recovering",
            AgentState::Offline => "offline",
        }
    }
}

impl ControlDirective {
    pub fn as_str(self) -> (s: &'static str)
        ensures
            s@ == directive_name(self),
    {
        match self {
            ControlDirective::Run => "run",
            ControlDirective::Contain => "contain",
            ControlDirective::Stop => "stop",
        }
    }
}

/// Reads a state stored by `AgentState::as_str`.
pub fn parse_state(value: &str) -> (s: AgentState)
    ensures
        s == state_from_name(value@),
{
    if str_eq(value, "suspect") {
        AgentState::Suspect
    } else if str_eq(value, "tripped") {
        AgentState::Tripped
    } else if str_eq(value, "contained") {
        AgentState::Contained
    } else if str_eq(value, "recovering") {
        AgentState::Recovering
    } else if str_eq(value, "offline") {
        AgentState::Offline
    } else {
        AgentState::Healthy
    }
}

/// Reads a directive stored by `ControlDirective::as_str`.
pub fn parse_directive(value: &str) -> (d: ControlDirective)
    ensures
        d == directive_from_name(value@),
{
    if str_eq(value, "contain") {
        ControlDirective::Contain
    } else if str_eq(value, "stop") {
        ControlDirective::Stop
    } else {
        ControlDirective::Run
    }
}

/// States are stored under their lower-case names.
pub proof fn lemma_state_names()
    ensures
        state_name(AgentState::Healthy) == "healthy"@,
        state_name(AgentState::Suspect) == "suspect"@,
        state_name(AgentState::Tripped) == "tripped"@,
        state_name(AgentState::Contained) == "contained"@,
        state_name(AgentState::Recovering) == "recovering"@,
        state_name(AgentState::Offline) == "offline"@,
        directive_name(ControlDirective::Run) == "run"@,
        directive_name(ControlDirective::Contain) == "contain"@,
        directive_name(ControlDirective::Stop) == "stop"@,
{
}

/// A stored name that is not one of the known names reads as `Healthy`
/// (for states) or `Run` (for directives).
pub proof fn lemma_unknown_names(v: Seq<char>)
    ensures
        (forall|s: AgentState| state_name(s) != v) ==> state_from_name(v) == AgentState::Healthy,
        (forall|d: ControlDirective| directive_name(d) != v) ==> directive_from_name(v)
            == ControlDirective::Run,
{
    if forall|s: AgentState| state_name(s) != v {
        assert(state_name(AgentState::Suspect) != v);
        assert(state_name(AgentState::Tripped) != v);
        assert(state_name(AgentState::Contained) != v);
        assert(state_name(AgentState::Recovering) != v);
        assert(state_name(AgentState::Offline) != v);
    }
    if forall|d: ControlDirective| directive_name(d) != v {
        assert(directive_name(ControlDirective::Contain) != v);
        assert(directive_name(ControlDirective::Stop) != v);
    }
}

/// Reading back a stored state gives the state that was stored.
pub proof fn lemma_state_name_round_trip(s: AgentState)
    ensures
        state_from_name(state_name(s)) == s,
{
    reveal_strlit("healthy");
    assert("healthy"@[0] == 'h');
    reveal_strlit("suspect");
    assert("suspect"@[0] == 's');
    reveal_strlit("tripped");
    assert("tripped"@[0] == 't');
    reveal_strlit("contained");
    assert("contained"@[0] == 'c');
    reveal_strlit("recovering");
    assert("recovering"@[0] == 'r');
    reveal_strlit("offline");
    assert("offline"@[0] == 'o');
}

/// Reading back a stored directive gives the directive that was stored.
pub proof fn lemma_directive_name_round_trip(d: ControlDirective)
    ensures
        directive_from_name(directive_name(d)) == d,
{
    reveal_strlit("run");
    assert("run"@[0] == 'r');
    reveal_strlit("contain");
    assert("contain"@[0] == 'c');
    reveal_strlit("stop");
    assert("stop"@[0] == 's');
}

} // verus!
