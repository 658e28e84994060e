//! The interface reconciliation engine.
//!
//! Given a trigger and a desired interface specification, the reconciler
//! decides the sequence of create/verify/move/delete operations that brings
//! the kernel's link table to the desired state.  It is written as an
//! event-driven machine: `Reconciler::start` yields the first operation,
//! the caller performs it against the kernel and feeds the outcome back to
//! `Reconciler::step`, which yields the next operation or the final verdict.
//! The machine itself touches nothing: every kernel operation is an `Action`
//! handed out, every outcome an `Event` handed in, so the whole decision
//! logic is verified for every possible outcome of every operation.

use vstd::prelude::*;
use vstd::string::StringExecFns;

use crate::link::GetResults;
use crate::naming::spec_synthesize;
use crate::naming::synthesize;

verus! {

/// The desired interface specification, immutable for one invocation.
#[derive(Debug, Clone)]
pub struct DesiredSpec {
    /// Interface name, derived from the prefix and the identifier.
    pub name: String,
    /// Tunnel identifier the interface must carry.
    pub if_id: u32,
    /// Alternate names, metadata only: assigning them is best-effort.
    pub alt_names: Vec<String>,
    /// Master device to bind the interface under, if any.
    pub master_dev: Option<String>,
    /// Target namespace to relocate the interface into, if any.
    pub netns: Option<String>,
}

/// A namespace was requested.
pub open spec fn spec_has_ns(d: DesiredSpec) -> bool {
    d.netns is Some
}

impl DesiredSpec {
    /// Build a specification whose name is derived from `prefix` and
    /// `if_id`.
    pub fn new(
        prefix: &str,
        if_id: u32,
        alt_names: Vec<String>,
        master_dev: Option<String>,
        netns: Option<String>,
    ) -> (r: DesiredSpec)
        ensures
            r.name@ == spec_synthesize(prefix@, if_id),
            r.if_id == if_id,
            r.alt_names == alt_names,
            r.master_dev == master_dev,
            r.netns == netns,
    {
        DesiredSpec { name: synthesize(prefix, if_id), if_id, alt_names, master_dev, netns }
    }
}

/// Where a delete runs: the namespace the specification queries in (the
/// target one when given, the default one otherwise), the target namespace
/// itself, or the default namespace unconditionally.
#[derive(Clone, Copy, Debug, PartialEq, Eq, Structural)]
pub enum Scope {
    SpecNs,
    TargetNs,
    DefaultNs,
}

/// A kernel operation the caller is asked to perform.  `Query` asks for the
/// specification's name with its expected identifier in the specification's
/// namespace; `CreateTunnel`, `SetAltNames` and `BringUp` act on the freshly
/// created interface in the default namespace; `MoveToNs` relocates it into
/// the target namespace; `Delete` removes it in the given scope.
#[derive(Clone, Copy, Debug, PartialEq, Eq, Structural)]
pub enum Action {
    Query,
    CreateTunnel,
    SetAltNames,
    BringUp,
    MoveToNs,
    Delete(Scope),
}

/// Which operation an error came from.
#[derive(Clone, Copy, Debug, PartialEq, Eq, Structural)]
pub enum OpKind {
    Create,
    Delete,
    BringUp,
    Move,
}

/// Why a reconciliation failed.
#[derive(Clone, Copy, Debug, PartialEq, Eq, Structural)]
pub enum ReconcileError {
    /// A kernel link operation failed; the payload names it.
    KernelOperationFailed(OpKind),
    /// The target namespace could not be resolved or entered.
    NamespaceUnavailable,
}

/// The operation name as it appears in the error's log line.
pub open spec fn spec_op_name(op: OpKind) -> Seq<char> {
    match op {
        OpKind::Create => "create"@,
        OpKind::Delete => "delete"@,
        OpKind::BringUp => "bring-up"@,
        OpKind::Move => "move"@,
    }
}

/// The single root-cause line a failed reconciliation owes the log.
pub open spec fn spec_error_message(e: ReconcileError) -> Seq<char> {
    match e {
        ReconcileError::KernelOperationFailed(op) => "kernel "@ + spec_op_name(op)
            + " operation failed"@,
        ReconcileError::NamespaceUnavailable => "target namespace unavailable"@,
    }
}

impl ReconcileError {
    /// Render the root-cause line for the log.
    pub fn message(&self) -> (r: String)
        ensures
            r@ == spec_error_message(*self),
    {
        match self {
            ReconcileError::KernelOperationFailed(op) => {
                let mut s = "kernel ".to_owned();
                match op {
                    OpKind::Create => s.append("create"),
                    OpKind::Delete => s.append("delete"),
                    OpKind::BringUp => s.append("bring-up"),
                    OpKind::Move => s.append("move"),
                }
                s.append(" operation failed");
                proof {
                    assert(s@ =~= spec_error_message(*self));
                }
                s
            },
            ReconcileError::NamespaceUnavailable => "target namespace unavailable".to_owned(),
        }
    }
}

/// How a single action failed, as the caller reports it.
#[derive(Clone, Copy, Debug, PartialEq, Eq, Structural)]
pub enum ActionError {
    Kernel,
    NamespaceUnavailable,
}

/// An outcome handed back to the machine: the classification of the query,
/// or the result of any other action.
#[derive(Clone, Copy, Debug, PartialEq, Eq)]
pub enum Event {
    Queried(Result<(), GetResults>),
    Acted(Result<(), ActionError>),
}

/// What the machine asks next: perform an action, or stop with the verdict.
#[derive(Clone, Copy, Debug, PartialEq, Eq)]
pub enum Step {
    Do(Action),
    Stop(Result<(), ReconcileError>),
}

/// Where the machine stands: which action it is waiting on.
#[derive(Clone, Copy, Debug, PartialEq, Eq, Structural)]
pub enum Phase {
    /// Awaiting the up-path query.
    UpQuery,
    /// Awaiting the delete that repairs a mismatched interface.
    UpRepairDelete,
    /// Awaiting the create.
    UpCreate,
    /// Awaiting the best-effort alternate-name assignment.
    UpAltNames,
    /// Awaiting the bring-up (with master binding, if any).
    UpBringUp,
    /// Bring-up failed; awaiting the cleanup delete before aborting with
    /// the recorded root cause.
    UpAbortDelete(ReconcileError),
    /// Awaiting the first move into the target namespace.
    UpMoveFirst,
    /// First move failed; awaiting the best-effort delete inside the target
    /// namespace before the single retry.
    UpRemedialDelete,
    /// Awaiting the retried move.
    UpMoveRetry,
    /// Retried move failed too; awaiting the last-resort delete in the
    /// default namespace before aborting with the recorded root cause.
    UpFinalDelete(ReconcileError),
    /// Awaiting the down-path query.
    DownQuery,
    /// Awaiting the down-path delete.
    DownDelete,
    /// The verdict has been given.
    Finished,
}

/// The error owed to a failed action of the given kind.
pub open spec fn spec_err_of(op: OpKind, e: ActionError) -> ReconcileError {
    match e {
        ActionError::Kernel => ReconcileError::KernelOperationFailed(op),
        ActionError::NamespaceUnavailable => ReconcileError::NamespaceUnavailable,
    }
}

/// The event a phase is waiting for: queries answer with a classification,
/// every other pending action with a plain result, and a finished machine
/// waits for nothing.
pub open spec fn spec_expects(phase: Phase, ev: Event) -> bool {
    match phase {
        Phase::UpQuery | Phase::DownQuery => ev is Queried,
        Phase::Finished => false,
        _ => ev is Acted,
    }
}

/// Where the machine starts, per trigger: both the up and the down path
/// begin by querying; any other trigger is an immediate no-op success.
pub open spec fn spec_start(trigger: crate::trigger::Trigger, has_ns: bool) -> (Phase, Step) {
    match trigger {
        crate::trigger::Trigger::Up => (Phase::UpQuery, Step::Do(Action::Query)),
        crate::trigger::Trigger::Down => (Phase::DownQuery, Step::Do(Action::Query)),
        crate::trigger::Trigger::Other => (Phase::Finished, Step::Stop(Ok(()))),
    }
}

/// The transition relation.  The final arm covers pairs the protocol never
/// produces — a finished machine, or an event of the wrong sort — which
/// `Reconciler::step` excludes by precondition.
pub open spec fn spec_step(phase: Phase, has_ns: bool, ev: Event) -> (Phase, Step) {
    match (phase, ev) {
        (Phase::UpQuery, Event::Queried(q)) => match q {
            Ok(_) => (Phase::Finished, Step::Stop(Ok(()))),
            Err(GetResults::NotFound) => (Phase::UpCreate, Step::Do(Action::CreateTunnel)),
            Err(_) => (Phase::UpRepairDelete, Step::Do(Action::Delete(Scope::SpecNs))),
        },
        (Phase::UpRepairDelete, Event::Acted(r)) => match r {
            Ok(_) => (Phase::UpCreate, Step::Do(Action::CreateTunnel)),
            Err(e) => (Phase::Finished, Step::Stop(Err(spec_err_of(OpKind::Delete, e)))),
        },
        (Phase::UpCreate, Event::Acted(r)) => match r {
            Ok(_) => (Phase::UpAltNames, Step::Do(Action::SetAltNames)),
            Err(e) => (Phase::Finished, Step::Stop(Err(spec_err_of(OpKind::Create, e)))),
        },
        (Phase::UpAltNames, Event::Acted(_)) => (Phase::UpBringUp, Step::Do(Action::BringUp)),
        (Phase::UpBringUp, Event::Acted(r)) => match r {
            Ok(_) => if has_ns {
                (Phase::UpMoveFirst, Step::Do(Action::MoveToNs))
            } else {
                (Phase::Finished, Step::Stop(Ok(())))
            },
            Err(e) => (
                Phase::UpAbortDelete(spec_err_of(OpKind::BringUp, e)),
                Step::Do(Action::Delete(Scope::DefaultNs)),
            ),
        },
        (Phase::UpAbortDelete(e), Event::Acted(_)) => (Phase::Finished, Step::Stop(Err(e))),
        (Phase::UpMoveFirst, Event::Acted(r)) => match r {
            Ok(_) => (Phase::Finished, Step::Stop(Ok(()))),
            Err(_) => (Phase::UpRemedialDelete, Step::Do(Action::Delete(Scope::TargetNs))),
        },
        (Phase::UpRemedialDelete, Event::Acted(_)) => (
            Phase::UpMoveRetry,
            Step::Do(Action::MoveToNs),
        ),
        (Phase::UpMoveRetry, Event::Acted(r)) => match r {
            Ok(_) => (Phase::Finished, Step::Stop(Ok(()))),
            Err(e) => (
                Phase::UpFinalDelete(spec_err_of(OpKind::Move, e)),
                Step::Do(Action::Delete(Scope::DefaultNs)),
            ),
        },
        (Phase::UpFinalDelete(e), Event::Acted(_)) => (Phase::Finished, Step::Stop(Err(e))),
        (Phase::DownQuery, Event::Queried(q)) => match q {
            Err(GetResults::NotFound) => (Phase::Finished, Step::Stop(Ok(()))),
            _ => (Phase::DownDelete, Step::Do(Action::Delete(Scope::SpecNs))),
        },
        (Phase::DownDelete, Event::Acted(r)) => match r {
            Ok(_) => (Phase::Finished, Step::Stop(Ok(()))),
            Err(e) => (Phase::Finished, Step::Stop(Err(spec_err_of(OpKind::Delete, e)))),
        },
        _ => (Phase::Finished, Step::Stop(Ok(()))),
    }
}

/// The reconciliation machine: the immutable specification and the phase.
#[derive(Debug)]
pub struct Reconciler {
    pub dspec: DesiredSpec,
    pub phase: Phase,
}

impl Reconciler {
    /// Start a reconciliation: the machine and the first step to take.
    pub fn start(trigger: crate::trigger::Trigger, dspec: DesiredSpec) -> (r: (Reconciler, Step))
        ensures
            r.0.dspec == dspec,
            (r.0.phase, r.1) == spec_start(trigger, spec_has_ns(dspec)),
    {
        match trigger {
            crate::trigger::Trigger::Up => (
                Reconciler { dspec, phase: Phase::UpQuery },
                Step::Do(Action::Query),
            ),
            crate::trigger::Trigger::Down => (
                Reconciler { dspec, phase: Phase::DownQuery },
                Step::Do(Action::Query),
            ),
            crate::trigger::Trigger::Other => (
                Reconciler { dspec, phase: Phase::Finished },
                Step::Stop(Ok(())),
            ),
        }
    }

    /// Feed the outcome of the pending action; the machine answers with the
    /// next action to perform, or with the final verdict.
    pub fn step(&mut self, ev: Event) -> (s: Step)
        requires
            spec_expects(old(self).phase, ev),
        ensures
            final(self).dspec == old(self).dspec,
            (final(self).phase, s) == spec_step(old(self).phase, spec_has_ns(old(self).dspec), ev),
    {
        let has_ns = self.dspec.netns.is_some();
        let (next, out): (Phase, Step) = match (self.phase, ev) {
            (Phase::UpQuery, Event::Queried(q)) => match q {
                Ok(_) => (Phase::Finished, Step::Stop(Ok(()))),
                Err(GetResults::NotFound) => (Phase::UpCreate, Step::Do(Action::CreateTunnel)),
                Err(_) => (Phase::UpRepairDelete, Step::Do(Action::Delete(Scope::SpecNs))),
            },
            (Phase::UpRepairDelete, Event::Acted(r)) => match r {
                Ok(_) => (Phase::UpCreate, Step::Do(Action::CreateTunnel)),
                Err(e) => (Phase::Finished, Step::Stop(Err(err_of(OpKind::Delete, e)))),
            },
            (Phase::UpCreate, Event::Acted(r)) => match r {
                Ok(_) => (Phase::UpAltNames, Step::Do(Action::SetAltNames)),
                Err(e) => (Phase::Finished, Step::Stop(Err(err_of(OpKind::Create, e)))),
            },
            (Phase::UpAltNames, Event::Acted(_)) => (
                Phase::UpBringUp,
                Step::Do(Action::BringUp),
            ),
            (Phase::UpBringUp, Event::Acted(r)) => match r {
                Ok(_) => {
                    if has_ns {
                        (Phase::UpMoveFirst, Step::Do(Action::MoveToNs))
                    } else {
                        (Phase::Finished, Step::Stop(Ok(())))
                    }
                },
                Err(e) => (
                    Phase::UpAbortDelete(err_of(OpKind::BringUp, e)),
                    Step::Do(Action::Delete(Scope::DefaultNs)),
                ),
            },
            (Phase::UpAbortDelete(e), Event::Acted(_)) => (Phase::Finished, Step::Stop(Err(e))),
            (Phase::UpMoveFirst, Event::Acted(r)) => match r {
                Ok(_) => (Phase::Finished, Step::Stop(Ok(()))),
                Err(_) => (Phase::UpRemedialDelete, Step::Do(Action::Delete(Scope::TargetNs))),
            },
            (Phase::UpRemedialDelete, Event::Acted(_)) => (
                Phase::UpMoveRetry,
                Step::Do(Action::MoveToNs),
            ),
            (Phase::UpMoveRetry, Event::Acted(r)) => match r {
                Ok(_) => (Phase::Finished, Step::Stop(Ok(()))),
                Err(e) => (
                    Phase::UpFinalDelete(err_of(OpKind::Move, e)),
                    Step::Do(Action::Delete(Scope::DefaultNs)),
                ),
            },
            (Phase::UpFinalDelete(e), Event::Acted(_)) => (Phase::Finished, Step::Stop(Err(e))),
            (Phase::DownQuery, Event::Queried(q)) => match q {
                Err(GetResults::NotFound) => (Phase::Finished, Step::Stop(Ok(()))),
                _ => (Phase::DownDelete, Step::Do(Action::Delete(Scope::SpecNs))),
            },
            (Phase::DownDelete, Event::Acted(r)) => match r {
                Ok(_) => (Phase::Finished, Step::Stop(Ok(()))),
                Err(e) => (Phase::Finished, Step::Stop(Err(err_of(OpKind::Delete, e)))),
            },
            _ => (Phase::Finished, Step::Stop(Ok(()))),
        };
        self.phase = next;
        out
    }

    /// The namespace a scoped action runs in: `None` stands for the default
    /// namespace.
    pub fn scope_netns(&self, scope: Scope) -> (r: Option<String>)
        ensures
            match scope {
                Scope::DefaultNs => r is None,
                Scope::SpecNs | Scope::TargetNs => r == self.dspec.netns,
            },
    {
        match scope {
            Scope::DefaultNs => None,
            Scope::SpecNs | Scope::TargetNs => match &self.dspec.netns {
                Some(n) => Some(n.clone()),
                None => None,
            },
        }
    }
}

/// Executable twin of `spec_err_of`.
pub fn err_of(op: OpKind, e: ActionError) -> (r: ReconcileError)
    ensures
        r == spec_err_of(op, e),
{
    match e {
        ActionError::Kernel => ReconcileError::KernelOperationFailed(op),
        ActionError::NamespaceUnavailable => ReconcileError::NamespaceUnavailable,
    }
}

/// The steps the machine emits from `phase` when fed the events in order.
pub open spec fn spec_run(phase: Phase, has_ns: bool, evs: Seq<Event>) -> Seq<Step>
    decreases evs.len(),
{
    if evs.len() == 0 {
        Seq::empty()
    } else {
        let next = spec_step(phase, has_ns, evs[0]);
        seq![next.1] + spec_run(next.0, has_ns, evs.drop_first())
    }
}

/// The whole exchange of one reconciliation: the step emitted at the start,
/// then one step per event fed in.
pub open spec fn spec_trace(
    trigger: crate::trigger::Trigger,
    has_ns: bool,
    evs: Seq<Event>,
) -> Seq<Step> {
    seq![spec_start(trigger, has_ns).1] + spec_run(spec_start(trigger, has_ns).0, has_ns, evs)
}

/// A step that asks for a mutation of the kernel's link table.
pub open spec fn spec_is_mutation(s: Step) -> bool {
    match s {
        Step::Do(Action::Query) => false,
        Step::Do(_) => true,
        Step::Stop(_) => false,
    }
}

/// A step that asks for work inside the target namespace.
pub open spec fn spec_is_ns_action(s: Step) -> bool {
    s == Step::Do(Action::MoveToNs) || s == Step::Do(Action::Delete(Scope::TargetNs))
}

} // verus!
