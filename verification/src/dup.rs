//! Decision logic and protocol model of the process-duplication
//! demonstration: the duplication primitive returns twice, once in the child
//! and once in the parent, and the parent must wait for the child before it
//! reports. The call into the operating system stays with the surrounding
//! program; this module decides what each continuation does and states the
//! synchronization contract.

use vstd::prelude::*;
use crate::decimal::dec_rep;
use crate::decimal::u64_to_dec;

verus! {

/// What the duplication primitive reports in one continuation.
#[derive(Clone, Copy, PartialEq, Eq, Structural, Debug)]
pub enum ForkReply {
    /// The fresh process: it holds a reference to its parent's identity
    /// through the environment, not through the reply.
    Child,
    /// The original process, holding the new child's identity.
    Parent { child: u64 },
}

/// The one failure the primitive can signal: the duplication could not be
/// performed, for instance under resource exhaustion.
#[derive(Clone, Copy, PartialEq, Eq, Structural, Debug)]
pub enum ForkError {
    UnavailableResource,
}

/// What the demonstration does next in a given continuation.
#[derive(Clone, Copy, PartialEq, Eq, Structural, Debug)]
pub enum DemoAction {
    /// The child continuation reports completion at once.
    ReportChild,
    /// The parent continuation waits for the child, then reports.
    WaitThenReport { child: u64 },
    /// The duplication failed; the demonstration treats this as fatal.
    AbortUnavailable,
}

/// The action each outcome of the duplication primitive calls for.
pub open spec fn plan_spec(r: Result<ForkReply, ForkError>) -> DemoAction {
    match r {
        Ok(ForkReply::Child) => DemoAction::ReportChild,
        Ok(ForkReply::Parent { child }) => DemoAction::WaitThenReport { child },
        Err(_) => DemoAction::AbortUnavailable,
    }
}

/// Decide what a continuation does from the outcome of the duplication
/// primitive: the child reports, the parent waits and then reports, and a
/// failed duplication is fatal.
pub fn plan_after_fork(r: Result<ForkReply, ForkError>) -> (a: DemoAction)
    ensures
        a == plan_spec(r),
{
    match r {
        Ok(ForkReply::Child) => DemoAction::ReportChild,
        Ok(ForkReply::Parent { child }) => DemoAction::WaitThenReport { child },
        Err(_) => DemoAction::AbortUnavailable,
    }
}

/// The child continuation's report, as a function of the identities it sees.
pub open spec fn child_message_spec(pid: nat, ppid: nat) -> Seq<char> {
    "Hello from child process with pid: "@ + dec_rep(pid) + " and parent pid:"@ + dec_rep(ppid)
}

/// Compose the child continuation's report.
pub fn child_message(pid: u64, ppid: u64) -> (s: String)
    ensures
        s@ == child_message_spec(pid as nat, ppid as nat),
{
    let mut s = String::from_str("Hello from child process with pid: ");
    let p = u64_to_dec(pid);
    s.append(p.as_str());
    s.append(" and parent pid:");
    let q = u64_to_dec(ppid);
    s.append(q.as_str());
    proof {
        assert(s@ =~= child_message_spec(pid as nat, ppid as nat));
    }
    s
}

/// The parent continuation's report, as a function of its own identity and
/// the child's.
pub open spec fn parent_message_spec(pid: nat, child: nat) -> Seq<char> {
    "Hello from parent process with pid: "@ + dec_rep(pid) + " and child pid:"@ + dec_rep(child)
}

/// Compose the parent continuation's report.
pub fn parent_message(pid: u64, child: u64) -> (s: String)
    ensures
        s@ == parent_message_spec(pid as nat, child as nat),
{
    let mut s = String::from_str("Hello from parent process with pid: ");
    let p = u64_to_dec(pid);
    s.append(p.as_str());
    s.append(" and child pid:");
    let q = u64_to_dec(child);
    s.append(q.as_str());
    proof {
        assert(s@ =~= parent_message_spec(pid as nat, child as nat));
    }
    s
}

/// The phase of the parent continuation after a successful duplication.
#[derive(Clone, Copy, PartialEq, Eq, Structural, Debug)]
pub enum ParentPhase {
    /// Executing, the wait call not yet made.
    Running,
    /// Blocked in the synchronization primitive.
    Waiting,
    /// The wait call has returned.
    Joined,
    /// Completion reported.
    Reported,
}

/// The phase of the child continuation after a successful duplication.
#[derive(Clone, Copy, PartialEq, Eq, Structural, Debug)]
pub enum ChildPhase {
    /// Executing, completion not yet reported.
    Running,
    /// Completion reported, the process still live.
    Reported,
    /// The process has finished.
    Exited,
}

/// The observable steps of the two continuations.
#[derive(Clone, Copy, PartialEq, Eq, Structural, Debug)]
pub enum DemoEvent {
    /// The child continuation reports completion.
    ChildReports,
    /// The child process finishes.
    ChildExits,
    /// The parent calls the synchronization primitive.
    ParentWaits,
    /// The synchronization primitive returns to the parent.
    WaitReturns,
    /// The parent continuation reports completion.
    ParentReports,
}

/// The joint state of the two continuations a successful duplication leaves
/// behind.
#[derive(Clone, Copy, PartialEq, Eq, Structural, Debug)]
pub struct Demo {
    pub parent: ParentPhase,
    pub child: ChildPhase,
}

/// The state right after the duplication primitive has returned twice.
pub open spec fn demo_init() -> Demo {
    Demo { parent: ParentPhase::Running, child: ChildPhase::Running }
}

/// Whether an event can fire in a state. The one coupling between the two
/// continuations is that the wait call cannot return while the child still
/// runs.
pub open spec fn demo_enabled(d: Demo, e: DemoEvent) -> bool {
    match e {
        DemoEvent::ChildReports => d.child == ChildPhase::Running,
        DemoEvent::ChildExits => d.child == ChildPhase::Reported,
        DemoEvent::ParentWaits => d.parent == ParentPhase::Running,
        DemoEvent::WaitReturns => d.parent == ParentPhase::Waiting && d.child
            == ChildPhase::Exited,
        DemoEvent::ParentReports => d.parent == ParentPhase::Joined,
    }
}

/// The state an enabled event leads to.
pub open spec fn demo_step(d: Demo, e: DemoEvent) -> Demo
    recommends
        demo_enabled(d, e),
{
    match e {
        DemoEvent::ChildReports => Demo { child: ChildPhase::Reported, ..d },
        DemoEvent::ChildExits => Demo { child: ChildPhase::Exited, ..d },
        DemoEvent::ParentWaits => Demo { parent: ParentPhase::Waiting, ..d },
        DemoEvent::WaitReturns => Demo { parent: ParentPhase::Joined, ..d },
        DemoEvent::ParentReports => Demo { parent: ParentPhase::Reported, ..d },
    }
}

impl Demo {
    /// The joint state right after the duplication primitive has returned
    /// twice: both continuations are running.
    pub fn new() -> (d: Demo)
        ensures
            d == demo_init(),
    {
        Demo { parent: ParentPhase::Running, child: ChildPhase::Running }
    }

    /// Advance the protocol by one event. An event that cannot fire — above
    /// all, a wait call returning while the child still runs, or a second
    /// report from either continuation — yields no state.
    pub fn step(self, e: DemoEvent) -> (r: Option<Demo>)
        ensures
            demo_enabled(self, e) ==> r == Some(demo_step(self, e)),
            !demo_enabled(self, e) ==> r == None::<Demo>,
    {
        match e {
            DemoEvent::ChildReports => {
                if self.child == ChildPhase::Running {
                    Some(Demo { child: ChildPhase::Reported, ..self })
                } else {
                    None
                }
            },
            DemoEvent::ChildExits => {
                if self.child == ChildPhase::Reported {
                    Some(Demo { child: ChildPhase::Exited, ..self })
                } else {
                    None
                }
            },
            DemoEvent::ParentWaits => {
                if self.parent == ParentPhase::Running {
                    Some(Demo { parent: ParentPhase::Waiting, ..self })
                } else {
                    None
                }
            },
            DemoEvent::WaitReturns => {
                if self.parent == ParentPhase::Waiting && self.child == ChildPhase::Exited {
                    Some(Demo { parent: ParentPhase::Joined, ..self })
                } else {
                    None
                }
            },
            DemoEvent::ParentReports => {
                if self.parent == ParentPhase::Joined {
                    Some(Demo { parent: ParentPhase::Reported, ..self })
                } else {
                    None
                }
            },
        }
    }
}

/// The state a sequence of events leads to, or nothing if some event in it
/// cannot fire where it stands.
pub open spec fn demo_run(d: Demo, events: Seq<DemoEvent>) -> Option<Demo>
    decreases events.len(),
{
    if events.len() == 0 {
        Some(d)
    } else if demo_enabled(d, events[0]) {
        demo_run(demo_step(d, events[0]), events.drop_first())
    } else {
        None
    }
}

/// How often an event occurs in a sequence.
pub open spec fn count_event(events: Seq<DemoEvent>, e: DemoEvent) -> nat
    decreases events.len(),
{
    if events.len() == 0 {
        0
    } else {
        (if events[0] == e {
            1nat
        } else {
            0nat
        }) + count_event(events.drop_first(), e)
    }
}

/// Once the child has exited it stays exited, and the parent's wait call can
/// only have returned after that: in every state reachable from the start of
/// the protocol, a parent past its wait call implies an exited child.
pub proof fn lemma_wait_only_after_child_exit(d: Demo, events: Seq<DemoEvent>, e: Demo)
    requires
        d.parent == ParentPhase::Joined || d.parent == ParentPhase::Reported ==> d.child
            == ChildPhase::Exited,
        demo_run(d, events) == Some(e),
    ensures
        e.parent == ParentPhase::Joined || e.parent == ParentPhase::Reported ==> e.child
            == ChildPhase::Exited,
    decreases events.len(),
{
    if events.len() > 0 {
        lemma_wait_only_after_child_exit(demo_step(d, events[0]), events.drop_first(), e);
    }
}

/// Each continuation reports completion exactly once: over any sequence of
/// events the protocol admits, the number of child reports is the move of the
/// child out of its running phase, and the number of parent reports is the
/// move of the parent into its reported phase. In particular a completed run
/// holds exactly one report from each continuation.
pub proof fn lemma_reports_counted(d: Demo, events: Seq<DemoEvent>, e: Demo)
    requires
        demo_run(d, events) == Some(e),
    ensures
        count_event(events, DemoEvent::ChildReports) + (if d.child == ChildPhase::Running {
            0nat
        } else {
            1nat
        }) == (if e.child == ChildPhase::Running {
            0nat
        } else {
            1nat
        }),
        count_event(events, DemoEvent::ParentReports) + (if d.parent == ParentPhase::Reported {
            1nat
        } else {
            0nat
        }) == (if e.parent == ParentPhase::Reported {
            1nat
        } else {
            0nat
        }),
    decreases events.len(),
{
    if events.len() > 0 {
        lemma_reports_counted(demo_step(d, events[0]), events.drop_first(), e);
    }
}

/// The collaborator contract as a whole: a run of the protocol from the
/// moment the duplication primitive returns twice to the moment both
/// continuations are done holds exactly one report from the child and one
/// from the parent, and the parent's wait call returned only after the child
/// had finished.
pub proof fn lemma_duplication_contract(events: Seq<DemoEvent>, e: Demo)
    requires
        demo_run(demo_init(), events) == Some(e),
        e.parent == ParentPhase::Reported,
    ensures
        count_event(events, DemoEvent::ChildReports) == 1,
        count_event(events, DemoEvent::ParentReports) == 1,
        e.child == ChildPhase::Exited,
{
    lemma_wait_only_after_child_exit(demo_init(), events, e);
    lemma_reports_counted(demo_init(), events, e);
}

/// The message under which a failed duplication is reported as fatal.
pub fn fork_failure_message() -> (s: &'static str)
    ensures
        s@ == "Fork Failed: Unable to create child process!"@,
{
    "Fork Failed: Unable to create child process!"
}

} // verus!
