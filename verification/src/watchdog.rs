//! Decisions of the node-side watchdog: when its workload may run, when it
//! must be contained, and how the watchdog identifies itself.
use vstd::prelude::*;
use crate::policy::{default_policy, DeadmanPolicy};
use crate::status::ControlDirective;
use crate::text::{blank, is_blank, whitespace_fields, whitespace_separated};

verus! {

/// What the watchdog last heard from the control plane.
#[derive(Debug, Clone, Copy, PartialEq, Eq, Structural)]
pub struct WatchdogControl {
    pub policy: DeadmanPolicy,
    pub directive: ControlDirective,
    pub armed: bool,
}

/// What the watchdog does with its workload after a control exchange.
#[derive(Debug, Clone, Copy, PartialEq, Eq, Structural)]
pub enum DirectiveAction {
    /// Leave the workload as it is.
    Proceed,
    /// Terminate the workload and stay alive.
    Contain,
    /// Terminate the workload and exit.
    ContainAndExit,
}

/// The fail-closed deadline, in whole seconds without control-plane
/// contact: the hard timeout, but at least one second.
pub open spec fn contact_deadline(policy: DeadmanPolicy) -> int {
    if policy.hard_timeout_secs < 1 {
        1
    } else {
        policy.hard_timeout_secs as int
    }
}

impl WatchdogControl {
    /// Before any contact the watchdog is armed, may run, and applies the
    /// default policy.
    pub fn initial() -> (c: WatchdogControl)
        ensures
            c.policy == default_policy(),
            c.directive == ControlDirective::Run,
            c.armed,
    {
        WatchdogControl { policy: DeadmanPolicy::default(), directive: ControlDirective::Run, armed: true }
    }

    /// Adopts a control-plane answer.
    pub fn adopt(&mut self, directive: ControlDirective, armed: bool, policy: DeadmanPolicy)
        ensures
            *final(self) == (WatchdogControl { policy, directive, armed }),
    {
        self.directive = directive;
        self.armed = armed;
        self.policy = policy;
    }

    /// The workload is kept running only while armed under `run`.
    pub fn supervises_workload(&self) -> (b: bool)
        ensures
            b == (self.armed && self.directive == ControlDirective::Run),
    {
        self.armed && self.directive == ControlDirective::Run
    }

    /// What the current directive asks of the workload.
    pub fn directive_action(&self) -> (a: DirectiveAction)
        ensures
            a == match self.directive {
                ControlDirective::Run => DirectiveAction::Proceed,
                ControlDirective::Contain => DirectiveAction::Contain,
                ControlDirective::Stop => DirectiveAction::ContainAndExit,
            },
    {
        match self.directive {
            ControlDirective::Run => DirectiveAction::Proceed,
            ControlDirective::Contain => DirectiveAction::Contain,
            ControlDirective::Stop => DirectiveAction::ContainAndExit,
        }
    }

    /// Whether the watchdog must contain its workload on its own after
    /// `secs_without_contact` whole seconds without reaching the control
    /// plane: armed, fail-closed, and the deadline has passed.
    pub fn fail_closed_due(&self, secs_without_contact: u64) -> (b: bool)
        ensures
            b == must_contain_locally(*self, secs_without_contact as int),
    {
        let deadline: i64 = if self.policy.hard_timeout_secs < 1 {
            1
        } else {
            self.policy.hard_timeout_secs
        };
        self.armed && self.policy.fail_closed && secs_without_contact >= deadline as u64
    }
}

/// Whether a watchdog that heard `c` last must contain its workload on its
/// own after `secs_without_contact` whole seconds without contact.
pub open spec fn must_contain_locally(c: WatchdogControl, secs_without_contact: int) -> bool {
    c.armed && c.policy.fail_closed && secs_without_contact >= contact_deadline(c.policy)
}

/// Fail-closed enforcement is local and persistent: an armed, fail-closed
/// watchdog that has gone without contact for at least the hard timeout
/// (and at least a second) must contain its workload, and stays bound to
/// for as long as contact remains lost.
pub proof fn lemma_lost_contact_contains(c: WatchdogControl, s1: int, s2: int)
    requires
        c.armed,
        c.policy.fail_closed,
        s1 >= c.policy.hard_timeout_secs,
        s1 >= 1,
        s1 <= s2,
    ensures
        must_contain_locally(c, s1),
        must_contain_locally(c, s2),
{
}

/// No local containment before the deadline: a watchdog does not contain
/// on lost contact while fewer seconds than the hard timeout (or than one
/// second) have passed; and it contains only when armed and fail-closed.
pub proof fn lemma_no_containment_before_deadline(c: WatchdogControl, s: int)
    ensures
        (s < c.policy.hard_timeout_secs || s < 1) ==> !must_contain_locally(c, s),
        must_contain_locally(c, s) ==> c.armed && c.policy.fail_closed,
        (c.armed && c.policy.fail_closed && s >= c.policy.hard_timeout_secs && s >= 1)
            ==> must_contain_locally(c, s),
{
}

/// A fail-open or disarmed watchdog never contains on lost contact alone.
pub proof fn lemma_no_local_containment_without_fail_closed(c: WatchdogControl, s: int)
    requires
        !c.armed || !c.policy.fail_closed,
    ensures
        !must_contain_locally(c, s),
{
}

/// Consecutive failures of the supervised workload.
#[derive(Debug, Clone, Copy, PartialEq, Eq, Structural)]
pub struct FailureCounter {
    pub consecutive_failures: i32,
}

impl FailureCounter {
    pub fn new() -> (c: FailureCounter)
        ensures
            c.consecutive_failures == 0,
    {
        FailureCounter { consecutive_failures: 0 }
    }

    /// Counts one more failure: the workload exited, could not be observed,
    /// or could not be launched.
    pub fn record_failure(&mut self)
        requires
            old(self).consecutive_failures < i32::MAX,
        ensures
            final(self).consecutive_failures == old(self).consecutive_failures + 1,
    {
        self.consecutive_failures = self.consecutive_failures + 1;
    }
}

/// Whether the supervisor starts its workload: it is not running and a
/// workload is configured.
pub fn launch_needed(running: bool, configured: bool) -> (b: bool)
    ensures
        b == (!running && configured),
{
    !running && configured
}

/// The locally configured workload: the program to run, if any, and its
/// arguments.
#[derive(Debug, Clone)]
pub struct WorkloadCommand {
    pub program: Option<String>,
    pub args: Vec<String>,
}

/// `w` is the workload command for the configured program and argument
/// line: a blank program means no workload; the argument line is split on
/// whitespace.
pub open spec fn configured_command(
    program: Option<Seq<char>>,
    args: Option<Seq<char>>,
    w: WorkloadCommand,
) -> bool {
    &&& match program {
        Some(p) => if blank(p) {
            w.program is None
        } else {
            w.program matches Some(q) && q@ == p
        },
        None => w.program is None,
    }
    &&& match args {
        Some(a) => w.args.deep_view() == whitespace_fields(a),
        None => w.args@.len() == 0,
    }
}

/// Text as its characters.
pub open spec fn chars_of(s: Option<String>) -> Option<Seq<char>> {
    match s {
        Some(s) => Some(s@),
        None => None,
    }
}

/// Builds the workload command from the locally configured program and
/// argument line.
pub fn workload_command(program: Option<String>, args: Option<String>) -> (w: WorkloadCommand)
    ensures
        configured_command(chars_of(program), chars_of(args), w),
{
    let program = match program {
        Some(p) => {
            if is_blank(p.as_str()) {
                None
            } else {
                Some(p)
            }
        },
        None => None,
    };
    let args = match args {
        Some(a) => whitespace_separated(a.as_str()),
        None => Vec::new(),
    };
    WorkloadCommand { program, args }
}

/// The watchdog's whole decision state: the workload command fixed from
/// local configuration when the watchdog starts, and what it last heard
/// from the control plane. Nothing the control plane sends can change the
/// command.
#[derive(Debug)]
pub struct Watchdog {
    control: WatchdogControl,
    command: WorkloadCommand,
}

impl Watchdog {
    /// What the watchdog last heard from the control plane.
    pub closed spec fn spec_control(&self) -> WatchdogControl {
        self.control
    }

    /// The locally configured workload command.
    pub closed spec fn spec_command(&self) -> WorkloadCommand {
        self.command
    }

    /// A watchdog starting from its local configuration, before any contact
    /// with the control plane.
    pub fn configure(program: Option<String>, args: Option<String>) -> (w: Watchdog)
        ensures
            configured_command(chars_of(program), chars_of(args), w.spec_command()),
            w.spec_control().policy == default_policy(),
            w.spec_control().directive == ControlDirective::Run,
            w.spec_control().armed,
    {
        Watchdog { control: WatchdogControl::initial(), command: workload_command(program, args) }
    }

    pub fn control(&self) -> (c: WatchdogControl)
        ensures
            c == self.spec_control(),
    {
        self.control
    }

    pub fn command(&self) -> (c: &WorkloadCommand)
        ensures
            *c == self.spec_command(),
    {
        &self.command
    }

    /// Adopts a control-plane answer: directive, arming and policy are
    /// replaced; the workload command stays as configured.
    pub fn adopt(&mut self, directive: ControlDirective, armed: bool, policy: DeadmanPolicy)
        ensures
            final(self).spec_control() == (WatchdogControl { policy, directive, armed }),
            final(self).spec_command() == old(self).spec_command(),
    {
        self.control.adopt(directive, armed, policy);
    }
}

/// The name a watchdog reports: the configured name unless blank, else the
/// host name, else `agent-<arch>`.
pub open spec fn agent_name_for(
    configured: Option<Seq<char>>,
    hostname: Option<Seq<char>>,
    arch: Seq<char>,
) -> Seq<char> {
    match configured {
        Some(c) if !blank(c) => c,
        _ => match hostname {
            Some(h) => h,
            None => "agent-"@ + arch,
        },
    }
}

/// The reported name: a configured, non-blank name wins; without one (or
/// with a blank one) the host name is used whenever it is given; only with
/// neither is the name `agent-` followed by the architecture.
pub proof fn lemma_agent_name_choice(
    configured: Option<Seq<char>>,
    hostname: Option<Seq<char>>,
    arch: Seq<char>,
)
    ensures
        configured matches Some(c) ==> (!blank(c) ==> agent_name_for(configured, hostname, arch)
            == c),
        (configured is None || (configured matches Some(c) && blank(c))) ==> match hostname {
            Some(h) => agent_name_for(configured, hostname, arch) == h,
            None => agent_name_for(configured, hostname, arch) == "agent-"@ + arch,
        },
{
}

/// The workload command follows local configuration: a program that is
/// missing or blank means no workload, any other is kept verbatim; a
/// missing argument line means no arguments.
pub proof fn lemma_configured_command(
    program: Option<Seq<char>>,
    args: Option<Seq<char>>,
    w: WorkloadCommand,
)
    requires
        configured_command(program, args, w),
    ensures
        (program is None || (program matches Some(p) && blank(p))) ==> w.program is None,
        program matches Some(p) ==> (!blank(p) ==> (w.program matches Some(q) && q@ == p)),
        args is None ==> w.args@.len() == 0,
        args matches Some(a) ==> w.args.deep_view() == whitespace_fields(a),
{
}

pub fn agent_name(configured: Option<String>, hostname: Option<String>, arch: &str) -> (n: String)
    ensures
        n@ == agent_name_for(
            match configured {
                Some(c) => Some(c@),
                None => None,
            },
            match hostname {
                Some(h) => Some(h@),
                None => None,
            },
            arch@,
        ),
{
    if let Some(c) = configured {
        if !is_blank(c.as_str()) {
            return c;
        }
    }
    match hostname {
        Some(h) => h,
        None => String::from_str("agent-").concat(arch),
    }
}

} // verus!
