//! Decisions the control plane takes around its HTTP API and its periodic
//! re-evaluation of every registered agent.
use vstd::prelude::*;
use crate::evaluation::Evaluation;
use crate::status::{AgentState, ControlDirective};
use crate::identity::{agent_id_text, hyphenated_uuid};
use crate::text::{starts_with, str_eq};

verus! {

/// An HTTP error answer: status code and message.
#[derive(Debug, Clone)]
pub struct ApiError {
    pub status: u16,
    pub message: String,
}

impl ApiError {
    pub fn new(status: u16, message: &str) -> (e: ApiError)
        ensures
            e.status == status,
            e.message@ == message@,
    {
        ApiError { status, message: String::from_str(message) }
    }

    /// 400 Bad Request with `message`.
    pub fn bad(message: &str) -> (e: ApiError)
        ensures
            e.status == 400,
            e.message@ == message@,
    {
        ApiError::new(400, message)
    }

    /// 401 Unauthorized.
    pub fn unauthorized() -> (e: ApiError)
        ensures
            e.status == 401,
            e.message@ == "unauthorized"@,
    {
        ApiError::new(401, "unauthorized")
    }

    /// 404 Not Found with `message`.
    pub fn not_found(message: &str) -> (e: ApiError)
        ensures
            e.status == 404,
            e.message@ == message@,
    {
        ApiError::new(404, message)
    }

    /// 500 Internal Server Error; the cause is logged, not returned.
    pub fn internal() -> (e: ApiError)
        ensures
            e.status == 500,
            e.message@ == "internal error"@,
    {
        ApiError::new(500, "internal error")
    }
}

/// The token of an `Authorization` header value of the form `Bearer <token>`.
pub open spec fn bearer_of(header: Seq<char>) -> Option<Seq<char>> {
    let prefix = "Bearer "@;
    if prefix.len() <= header.len() && header.subrange(0, prefix.len() as int) == prefix {
        Some(header.subrange(prefix.len() as int, header.len() as int))
    } else {
        None
    }
}

/// The bearer token carried by an `Authorization` header, if any.
pub fn bearer(header: Option<&str>) -> (t: Option<&str>)
    ensures
        match header {
            None => t is None,
            Some(h) => match bearer_of(h@) {
                None => t is None,
                Some(tok) => t matches Some(x) && x@ == tok,
            },
        },
{
    match header {
        None => None,
        Some(h) => {
            let prefix = "Bearer ";
            if starts_with(h, prefix) {
                let n = h.unicode_len();
                let m = prefix.unicode_len();
                Some(h.substring_char(m, n))
            } else {
                None
            }
        },
    }
}

/// Whether a request whose `Authorization` header is `header` may act with
/// the credential `expected`.
pub open spec fn authorized(header: Option<Seq<char>>, expected: Seq<char>) -> bool {
    match header {
        Some(h) => bearer_of(h) == Some(expected),
        None => false,
    }
}

/// Admits a request that presents `expected` as its bearer token; answers
/// 401 otherwise.
pub fn require_token(header: Option<&str>, expected: &str) -> (r: Result<(), ApiError>)
    ensures
        r is Ok <==> authorized(
            match header {
                Some(h) => Some(h@),
                None => None,
            },
            expected@,
        ),
        r matches Err(e) ==> e.status == 401 && e.message@ == "unauthorized"@,
{
    match bearer(header) {
        Some(token) => {
            if str_eq(token, expected) {
                Ok(())
            } else {
                Err(ApiError::unauthorized())
            }
        },
        None => Err(ApiError::unauthorized()),
    }
}

/// Both credentials are long enough to be used (at least 32 bytes each).
pub fn secrets_are_strong(admin_token: &str, agent_secret: &str) -> (ok: bool)
    ensures
        ok == (admin_token.len() >= 32 && agent_secret.len() >= 32),
{
    !(admin_token.len() < 32 || agent_secret.len() < 32)
}

/// The directive an operator names, read strictly.
pub open spec fn named_directive(v: Seq<char>) -> Option<ControlDirective> {
    if v == "run"@ {
        Some(ControlDirective::Run)
    } else if v == "contain"@ {
        Some(ControlDirective::Contain)
    } else if v == "stop"@ {
        Some(ControlDirective::Stop)
    } else {
        None
    }
}

/// Reads the directive an operator requested; anything but `run`,
/// `contain` or `stop` is refused with 400.
pub fn manual_directive(input: &str) -> (r: Result<ControlDirective, ApiError>)
    ensures
        match named_directive(input@) {
            Some(d) => r == Ok::<ControlDirective, ApiError>(d),
            None => r matches Err(e) && e.status == 400 && e.message@
                == "directive must be run, contain, or stop"@,
        },
{
    if str_eq(input, "run") {
        Ok(ControlDirective::Run)
    } else if str_eq(input, "contain") {
        Ok(ControlDirective::Contain)
    } else if str_eq(input, "stop") {
        Ok(ControlDirective::Stop)
    } else {
        Err(ApiError::bad("directive must be run, contain, or stop"))
    }
}

/// The state an agent takes when an operator sets its directive: `run`
/// starts recovery, `contain` and `stop` contain it.
pub fn state_after_manual_directive(d: ControlDirective) -> (s: AgentState)
    ensures
        s == (if d == ControlDirective::Run {
            AgentState::Recovering
        } else {
            AgentState::Contained
        }),
{
    match d {
        ControlDirective::Run => AgentState::Recovering,
        ControlDirective::Contain | ControlDirective::Stop => AgentState::Contained,
    }
}

/// How many events an operator's listing returns: the request, or 100,
/// kept within 1 to 500.
pub open spec fn event_limit_for(requested: Option<i64>) -> int {
    let l = match requested {
        Some(l) => l as int,
        None => 100,
    };
    if l < 1 {
        1
    } else if l > 500 {
        500
    } else {
        l
    }
}

pub fn event_limit(requested: Option<i64>) -> (l: i64)
    ensures
        l as int == event_limit_for(requested),
{
    let l = match requested {
        Some(l) => l,
        None => 100,
    };
    if l < 1 {
        1
    } else if l > 500 {
        500
    } else {
        l
    }
}

/// The lifecycle events the control plane records.
#[derive(Debug, Clone, Copy, PartialEq, Eq, Structural)]
pub enum LifecycleEvent {
    AgentTripped,
    AgentStateChanged,
    AgentArmed,
    AgentDisarmed,
    PolicyUpdated,
    DirectiveChanged,
}

pub open spec fn event_name(e: LifecycleEvent) -> Seq<char> {
    match e {
        LifecycleEvent::AgentTripped => "agent.tripped"@,
        LifecycleEvent::AgentStateChanged => "agent.state_changed"@,
        LifecycleEvent::AgentArmed => "agent.armed"@,
        LifecycleEvent::AgentDisarmed => "agent.disarmed"@,
        LifecycleEvent::PolicyUpdated => "policy.updated"@,
        LifecycleEvent::DirectiveChanged => "directive.changed"@,
    }
}

impl LifecycleEvent {
    /// The event type recorded in storage and on the event stream.
    pub fn as_str(self) -> (s: &'static str)
        ensures
            s@ == event_name(self),
    {
        match self {
            LifecycleEvent::AgentTripped => "agent.tripped",
            LifecycleEvent::AgentStateChanged => "agent.state_changed",
            LifecycleEvent::AgentArmed => "agent.armed",
            LifecycleEvent::AgentDisarmed => "agent.disarmed",
            LifecycleEvent::PolicyUpdated => "policy.updated",
            LifecycleEvent::DirectiveChanged => "directive.changed",
        }
    }

    /// The event recorded when an operator arms or disarms an agent.
    pub fn for_arming(armed: bool) -> (e: LifecycleEvent)
        ensures
            e == (if armed {
                LifecycleEvent::AgentArmed
            } else {
                LifecycleEvent::AgentDisarmed
            }),
    {
        if armed {
            LifecycleEvent::AgentArmed
        } else {
            LifecycleEvent::AgentDisarmed
        }
    }
}

/// The key under which an event is published: the agent's identifier, or
/// `deadman-control` for events about no agent.
pub fn event_key(agent_id: Option<u128>) -> (k: String)
    ensures
        k@ == match agent_id {
            Some(id) => hyphenated_uuid(id),
            None => "deadman-control"@,
        },
{
    match agent_id {
        Some(id) => agent_id_text(id),
        None => String::from_str("deadman-control"),
    }
}

/// What the periodic evaluator records for an agent: nothing when neither
/// state nor directive changed; otherwise a trip or a state change.
pub open spec fn reevaluation_outcome(
    old_state: AgentState,
    old_directive: ControlDirective,
    new_state: AgentState,
    new_directive: ControlDirective,
    trip: bool,
) -> Option<LifecycleEvent> {
    if new_state == old_state && new_directive == old_directive {
        None
    } else if trip {
        Some(LifecycleEvent::AgentTripped)
    } else {
        Some(LifecycleEvent::AgentStateChanged)
    }
}

/// Whether the periodic evaluator stores `evaluation` and which event it
/// records; `None` leaves the agent untouched.
pub fn reevaluation_event(
    old_state: AgentState,
    old_directive: ControlDirective,
    evaluation: &Evaluation,
) -> (r: Option<LifecycleEvent>)
    ensures
        r == reevaluation_outcome(
            old_state,
            old_directive,
            evaluation.state,
            evaluation.directive,
            evaluation.trip,
        ),
{
    if evaluation.state == old_state && evaluation.directive == old_directive {
        None
    } else if evaluation.trip {
        Some(LifecycleEvent::AgentTripped)
    } else {
        Some(LifecycleEvent::AgentStateChanged)
    }
}

/// What the heartbeat handler does after evaluating an agent.
#[derive(Debug, Clone, Copy, PartialEq, Eq, Structural)]
pub struct HeartbeatFollowUp {
    /// Store the new state and directive.
    pub store: bool,
    /// Record an `agent.tripped` event.
    pub record_trip: bool,
}

/// The heartbeat handler stores the decision when the state changed and
/// records a trip whenever the decision trips.
pub fn heartbeat_follow_up(stored_state: AgentState, evaluation: &Evaluation) -> (f:
    HeartbeatFollowUp)
    ensures
        f.store == (evaluation.state != stored_state),
        f.record_trip == evaluation.trip,
{
    HeartbeatFollowUp { store: evaluation.state != stored_state, record_trip: evaluation.trip }
}

/// The state and directive an agent is given when an operator disarms it.
pub fn disarmed_record() -> (r: (AgentState, ControlDirective))
    ensures
        r == (AgentState::Healthy, ControlDirective::Run),
{
    (AgentState::Healthy, ControlDirective::Run)
}

/// Disarming is quiet: once an operator has disarmed an agent, the periodic
/// evaluator neither changes it nor records an event, whatever its
/// heartbeat age, failures or policy.
pub proof fn lemma_disarmed_agent_is_left_alone(
    age: int,
    failures: int,
    policy: crate::policy::DeadmanPolicy,
)
    ensures
        ({
            let v = crate::evaluation::verdict(
                age,
                false,
                failures,
                ControlDirective::Run,
                policy,
            );
            reevaluation_outcome(
                AgentState::Healthy,
                ControlDirective::Run,
                v.state,
                v.directive,
                v.trip,
            ) is None
        }),
{
}

/// A manual contain or stop is stable: an armed agent an operator contained
/// or stopped is neither changed nor reported by the periodic evaluator.
pub proof fn lemma_manual_containment_is_stable(
    age: int,
    failures: int,
    d: ControlDirective,
    policy: crate::policy::DeadmanPolicy,
)
    requires
        d != ControlDirective::Run,
    ensures
        ({
            let v = crate::evaluation::verdict(age, true, failures, d, policy);
            reevaluation_outcome(
                AgentState::Contained,
                d,
                v.state,
                v.directive,
                v.trip,
            ) is None
        }),
{
}

/// The evaluator stores and records exactly the real changes: whenever the
/// new decision's state or its directive differs from the stored one it
/// records a trip (for a tripping decision) or a state change, and when
/// both are unchanged it records nothing.
pub proof fn lemma_reevaluation_records_real_changes(
    old_state: AgentState,
    old_directive: ControlDirective,
    new_state: AgentState,
    new_directive: ControlDirective,
    trip: bool,
)
    ensures
        (new_state != old_state || new_directive != old_directive) ==> reevaluation_outcome(
            old_state,
            old_directive,
            new_state,
            new_directive,
            trip,
        ) == Some(
            if trip {
                LifecycleEvent::AgentTripped
            } else {
                LifecycleEvent::AgentStateChanged
            },
        ),
        (new_state == old_state && new_directive == old_directive) ==> reevaluation_outcome(
            old_state,
            old_directive,
            new_state,
            new_directive,
            trip,
        ) is None,
{
}

/// Event listings use the requested limit when it lies within 1 to 500,
/// the nearest bound when it lies outside, and 100 when none is requested.
pub proof fn lemma_event_limit(requested: Option<i64>)
    ensures
        requested is None ==> event_limit_for(requested) == 100,
        requested matches Some(l) ==> (1 <= l <= 500 ==> event_limit_for(requested) == l),
        requested matches Some(l) ==> (l < 1 ==> event_limit_for(requested) == 1),
        requested matches Some(l) ==> (l > 500 ==> event_limit_for(requested) == 500),
        1 <= event_limit_for(requested) <= 500,
{
}

/// A bearer header carries a token exactly when it is `Bearer ` followed by
/// that token.
pub proof fn lemma_bearer_of(header: Seq<char>, token: Seq<char>)
    ensures
        bearer_of(header) == Some(token) <==> header == "Bearer "@ + token,
{
    let p = "Bearer "@;
    if header == p + token {
        assert(header.subrange(0, p.len() as int) =~= p);
        assert(header.subrange(p.len() as int, header.len() as int) =~= token);
    }
    if bearer_of(header) == Some(token) {
        assert(header =~= header.subrange(0, p.len() as int) + header.subrange(
            p.len() as int,
            header.len() as int,
        ));
    }
}

/// A request is authorized for a credential exactly when its header is
/// `Bearer ` followed by that credential.
pub proof fn lemma_authorized(header: Option<Seq<char>>, expected: Seq<char>)
    ensures
        authorized(header, expected) <==> header == Some("Bearer "@ + expected),
{
    if let Some(h) = header {
        lemma_bearer_of(h, expected);
    }
}

/// Distinct lifecycle events are recorded under distinct names.
pub proof fn lemma_event_names_distinct(a: LifecycleEvent, b: LifecycleEvent)
    requires
        a != b,
    ensures
        event_name(a) != event_name(b),
{
    reveal_strlit("agent.tripped");
    reveal_strlit("agent.state_changed");
    reveal_strlit("agent.armed");
    reveal_strlit("agent.disarmed");
    reveal_strlit("policy.updated");
    reveal_strlit("directive.changed");
    assert("agent.tripped"@[6] == 't');
    assert("agent.state_changed"@[6] == 's');
    assert("agent.armed"@[6] == 'a');
    assert("agent.disarmed"@[6] == 'd');
    assert("policy.updated"@[0] == 'p');
    assert("directive.changed"@[0] == 'd');
    assert("agent.tripped"@[0] == 'a');
    assert("agent.state_changed"@[0] == 'a');
    assert("agent.armed"@[0] == 'a');
    assert("agent.disarmed"@[0] == 'a');
}

/// Operators may name exactly the three directives `run`, `contain` and
/// `stop`.
pub proof fn lemma_named_directives(v: Seq<char>)
    ensures
        named_directive(v) is Some <==> (v == "run"@ || v == "contain"@ || v == "stop"@),
        v == "run"@ ==> named_directive(v) == Some(ControlDirective::Run),
        v == "contain"@ ==> named_directive(v) == Some(ControlDirective::Contain),
        v == "stop"@ ==> named_directive(v) == Some(ControlDirective::Stop),
{
    reveal_strlit("run");
    reveal_strlit("contain");
    reveal_strlit("stop");
    assert("run"@[0] == 'r');
    assert("contain"@[0] == 'c');
    assert("stop"@[0] == 's');
}

/// Operator directives read strictly agree with stored directives read
/// leniently, and every stored directive name is accepted from an operator.
pub proof fn lemma_manual_directive_agrees_with_storage(d: ControlDirective, v: Seq<char>)
    ensures
        named_directive(crate::status::directive_name(d)) == Some(d),
        named_directive(v) matches Some(x) ==> crate::status::directive_from_name(v) == x,
{
    reveal_strlit("run");
    reveal_strlit("contain");
    reveal_strlit("stop");
    assert("run"@[0] == 'r');
    assert("contain"@[0] == 'c');
    assert("stop"@[0] == 's');
}

/// A bearer header carries exactly the token that follows its prefix:
/// `Bearer <t>` is authorized for credential `t` and for no other.
pub proof fn lemma_bearer_round_trip(token: Seq<char>, other: Seq<char>)
    ensures
        authorized(Some("Bearer "@ + token), token),
        other != token ==> !authorized(Some("Bearer "@ + token), other),
{
    let h = "Bearer "@ + token;
    assert(h.subrange(0, "Bearer "@.len() as int) =~= "Bearer "@);
    assert(h.subrange("Bearer "@.len() as int, h.len() as int) =~= token);
}

/// Every evaluator pass that records a trip stores a contained agent.
pub proof fn lemma_recorded_trip_contains(
    age: int,
    armed: bool,
    failures: int,
    old_state: AgentState,
    old_directive: ControlDirective,
    policy: crate::policy::DeadmanPolicy,
)
    ensures
        ({
            let v = crate::evaluation::verdict(age, armed, failures, old_directive, policy);
            reevaluation_outcome(old_state, old_directive, v.state, v.directive, v.trip) == Some(
                LifecycleEvent::AgentTripped,
            ) ==> v.directive == ControlDirective::Contain && v.state == AgentState::Tripped
        }),
{
}

} // verus!
