//! The laws of the reconciliation machine, proved once and for all over its
//! traces: what the machine does when the interface is already correct, when
//! it is absent on teardown, when it mismatches, and when the relocation
//! into the target namespace stumbles.

use vstd::prelude::*;

use crate::link::GetResults;
use crate::reconcile::Action;
use crate::reconcile::ActionError;
use crate::reconcile::Event;
use crate::reconcile::OpKind;
use crate::reconcile::Phase;
use crate::reconcile::Scope;
use crate::reconcile::Step;
use crate::reconcile::spec_err_of;
use crate::reconcile::spec_is_mutation;
use crate::reconcile::spec_is_ns_action;
use crate::reconcile::spec_run;
use crate::reconcile::spec_step;
use crate::reconcile::spec_trace;
use crate::trigger::Trigger;

verus! {

/// Feeding one event and then the rest emits the step owed to that event,
/// followed by whatever the machine emits from the new phase.
proof fn lemma_run_unfold(phase: Phase, has_ns: bool, e: Event, rest: Seq<Event>)
    ensures
        spec_run(phase, has_ns, seq![e] + rest) == seq![spec_step(phase, has_ns, e).1]
            + spec_run(spec_step(phase, has_ns, e).0, has_ns, rest),
{
    let evs = seq![e] + rest;
    assert(evs[0] == e);
    assert(evs.drop_first() =~= rest);
}

/// The machine emits exactly one step per event fed in.
pub proof fn lemma_run_len(phase: Phase, has_ns: bool, evs: Seq<Event>)
    ensures
        spec_run(phase, has_ns, evs).len() == evs.len(),
    decreases evs.len(),
{
    if evs.len() > 0 {
        let next = spec_step(phase, has_ns, evs[0]);
        lemma_run_len(next.0, has_ns, evs.drop_first());
    }
}

/// Idempotence of the up path: when the query reports that the interface
/// already exists in the right place with the right properties, the
/// reconciliation succeeds at once and asks for no kernel mutation at all.
pub proof fn lemma_up_already_satisfied(has_ns: bool)
    ensures
        spec_trace(Trigger::Up, has_ns, seq![Event::Queried(Ok(()))]) =~= seq![
            Step::Do(Action::Query),
            Step::Stop(Ok(())),
        ],
        forall|i: int|
            0 <= i < spec_trace(Trigger::Up, has_ns, seq![Event::Queried(Ok(()))]).len()
                ==> !spec_is_mutation(
                spec_trace(Trigger::Up, has_ns, seq![Event::Queried(Ok(()))])[i],
            ),
{
    let e = Event::Queried(Ok(()));
    assert(seq![e] =~= seq![e] + Seq::<Event>::empty());
    lemma_run_unfold(Phase::UpQuery, has_ns, e, Seq::empty());
    assert(spec_run(Phase::Finished, has_ns, Seq::empty()) =~= Seq::<Step>::empty());
    assert(spec_trace(Trigger::Up, has_ns, seq![e]) =~= seq![
        Step::Do(Action::Query),
        Step::Stop(Ok(())),
    ]);
}

/// Tearing down an absent interface is a success and mutates nothing.
pub proof fn lemma_down_absent_is_noop(has_ns: bool)
    ensures
        spec_trace(Trigger::Down, has_ns, seq![Event::Queried(Err(GetResults::NotFound))]) =~= seq![
            Step::Do(Action::Query),
            Step::Stop(Ok(())),
        ],
        forall|i: int|
            0 <= i < spec_trace(
                Trigger::Down,
                has_ns,
                seq![Event::Queried(Err(GetResults::NotFound))],
            ).len() ==> !spec_is_mutation(
                spec_trace(Trigger::Down, has_ns, seq![Event::Queried(Err(GetResults::NotFound))])[i],
            ),
{
    let e = Event::Queried(Err(GetResults::NotFound));
    assert(seq![e] =~= seq![e] + Seq::<Event>::empty());
    lemma_run_unfold(Phase::DownQuery, has_ns, e, Seq::empty());
    assert(spec_run(Phase::Finished, has_ns, Seq::empty()) =~= Seq::<Step>::empty());
    assert(spec_trace(Trigger::Down, has_ns, seq![e]) =~= seq![
        Step::Do(Action::Query),
        Step::Stop(Ok(())),
    ]);
}

/// The phases the machine can stand in once the one create has been asked
/// for: from any of them it never again asks for a create, nor for a delete
/// in the specification's namespace.
pub open spec fn spec_past_repair(phase: Phase) -> bool {
    match phase {
        Phase::UpCreate
        | Phase::UpAltNames
        | Phase::UpBringUp
        | Phase::UpAbortDelete(_)
        | Phase::UpMoveFirst
        | Phase::UpRemedialDelete
        | Phase::UpMoveRetry
        | Phase::UpFinalDelete(_)
        | Phase::Finished => true,
        _ => false,
    }
}

/// Once past the repair window, whatever events arrive, the machine emits
/// no further create and no further delete in the specification's
/// namespace.
pub proof fn lemma_no_repair_past(phase: Phase, has_ns: bool, evs: Seq<Event>)
    requires
        spec_past_repair(phase),
    ensures
        forall|i: int|
            0 <= i < spec_run(phase, has_ns, evs).len() ==> spec_run(phase, has_ns, evs)[i]
                != Step::Do(Action::CreateTunnel) && spec_run(phase, has_ns, evs)[i] != Step::Do(
                Action::Delete(Scope::SpecNs),
            ),
    decreases evs.len(),
{
    if evs.len() > 0 {
        let next = spec_step(phase, has_ns, evs[0]);
        assert(spec_past_repair(next.0));
        assert(next.1 != Step::Do(Action::CreateTunnel));
        assert(next.1 != Step::Do(Action::Delete(Scope::SpecNs)));
        lemma_no_repair_past(next.0, has_ns, evs.drop_first());
        assert forall|i: int| 0 <= i < spec_run(phase, has_ns, evs).len() implies spec_run(
            phase,
            has_ns,
            evs,
        )[i] != Step::Do(Action::CreateTunnel) && spec_run(phase, has_ns, evs)[i] != Step::Do(
            Action::Delete(Scope::SpecNs),
        ) by {
            if i > 0 {
                assert(spec_run(phase, has_ns, evs)[i] == spec_run(
                    next.0,
                    has_ns,
                    evs.drop_first(),
                )[i - 1]);
            }
        }
    }
}

/// A mismatched interface is repaired by exactly one delete followed by
/// exactly one create: when the up-path query reports any outcome other
/// than "absent" or "already correct" and the repairing delete succeeds,
/// the trace opens with query, delete (in the specification's namespace),
/// create — and however the rest of the run unfolds, no further create and
/// no further delete in that namespace is ever asked for.
pub proof fn lemma_mismatch_repairs_once(has_ns: bool, g: GetResults, evs: Seq<Event>)
    requires
        g != GetResults::NotFound,
    ensures
        ({
            let tr = spec_trace(
                Trigger::Up,
                has_ns,
                seq![Event::Queried(Err(g)), Event::Acted(Ok(()))] + evs,
            );
            &&& tr.len() == 3 + evs.len()
            &&& tr[0] == Step::Do(Action::Query)
            &&& tr[1] == Step::Do(Action::Delete(Scope::SpecNs))
            &&& tr[2] == Step::Do(Action::CreateTunnel)
            &&& forall|i: int|
                3 <= i < tr.len() ==> tr[i] != Step::Do(Action::CreateTunnel) && tr[i] != Step::Do(
                    Action::Delete(Scope::SpecNs),
                )
        }),
{
    let e1 = Event::Queried(Err(g));
    let e2 = Event::Acted(Ok(()));
    let full = seq![e1, e2] + evs;
    assert(full =~= seq![e1] + (seq![e2] + evs));
    lemma_run_unfold(Phase::UpQuery, has_ns, e1, seq![e2] + evs);
    lemma_run_unfold(Phase::UpRepairDelete, has_ns, e2, evs);
    let rest = spec_run(Phase::UpCreate, has_ns, evs);
    lemma_no_repair_past(Phase::UpCreate, has_ns, evs);
    lemma_run_len(Phase::UpCreate, has_ns, evs);
    let tr = spec_trace(Trigger::Up, has_ns, full);
    assert(tr =~= seq![
        Step::Do(Action::Query),
        Step::Do(Action::Delete(Scope::SpecNs)),
        Step::Do(Action::CreateTunnel),
    ] + rest);
    assert forall|i: int| 3 <= i < tr.len() implies tr[i] != Step::Do(Action::CreateTunnel)
        && tr[i] != Step::Do(Action::Delete(Scope::SpecNs)) by {
        assert(tr[i] == rest[i - 3]);
    }
}

/// When the repairing delete itself fails, the reconciliation aborts with
/// that failure and no create is ever asked for.
pub proof fn lemma_mismatch_delete_failure_aborts(has_ns: bool, g: GetResults, e: ActionError)
    requires
        g != GetResults::NotFound,
    ensures
        spec_trace(Trigger::Up, has_ns, seq![Event::Queried(Err(g)), Event::Acted(Err(e))]) =~= seq![
            Step::Do(Action::Query),
            Step::Do(Action::Delete(Scope::SpecNs)),
            Step::Stop(Err(spec_err_of(OpKind::Delete, e))),
        ],
{
    let e1 = Event::Queried(Err(g));
    let e2 = Event::Acted(Err(e));
    let full = seq![e1, e2];
    assert(full =~= seq![e1] + (seq![e2] + Seq::<Event>::empty()));
    lemma_run_unfold(Phase::UpQuery, has_ns, e1, seq![e2] + Seq::<Event>::empty());
    lemma_run_unfold(Phase::UpRepairDelete, has_ns, e2, Seq::empty());
    assert(spec_run(Phase::Finished, has_ns, Seq::empty()) =~= Seq::<Step>::empty());
}

/// When no namespace was requested, no step of any run ever asks for work
/// inside a target namespace — neither a move nor a delete there.
pub proof fn lemma_no_ns_work_without_ns(phase: Phase, evs: Seq<Event>)
    requires
        phase != Phase::UpMoveFirst,
        phase != Phase::UpRemedialDelete,
        phase != Phase::UpMoveRetry,
    ensures
        forall|i: int|
            0 <= i < spec_run(phase, false, evs).len() ==> !spec_is_ns_action(
                spec_run(phase, false, evs)[i],
            ),
    decreases evs.len(),
{
    if evs.len() > 0 {
        let next = spec_step(phase, false, evs[0]);
        assert(next.0 != Phase::UpMoveFirst && next.0 != Phase::UpRemedialDelete && next.0
            != Phase::UpMoveRetry);
        assert(!spec_is_ns_action(next.1));
        lemma_no_ns_work_without_ns(next.0, evs.drop_first());
        assert forall|i: int| 0 <= i < spec_run(phase, false, evs).len() implies !spec_is_ns_action(
            spec_run(phase, false, evs)[i],
        ) by {
            if i > 0 {
                assert(spec_run(phase, false, evs)[i] == spec_run(
                    next.0,
                    false,
                    evs.drop_first(),
                )[i - 1]);
            }
        }
    }
}

/// The same, for a whole reconciliation from either trigger: without a
/// requested namespace, no trace contains namespace-scoped work.
pub proof fn lemma_trace_no_ns_work_without_ns(trigger: Trigger, evs: Seq<Event>)
    ensures
        forall|i: int|
            0 <= i < spec_trace(trigger, false, evs).len() ==> !spec_is_ns_action(
                spec_trace(trigger, false, evs)[i],
            ),
{
    let start = crate::reconcile::spec_start(trigger, false);
    lemma_no_ns_work_without_ns(start.0, evs);
    assert forall|i: int| 0 <= i < spec_trace(trigger, false, evs).len() implies !spec_is_ns_action(
        spec_trace(trigger, false, evs)[i],
    ) by {
        if i > 0 {
            assert(spec_trace(trigger, false, evs)[i] == spec_run(start.0, false, evs)[i - 1]);
        }
    }
}

/// The plain creation path: when the up-path query reports no interface
/// and no namespace was requested, the machine asks for create, alternate
/// names, bring-up, and succeeds — whatever the best-effort alternate-name
/// outcome `ar` was.
pub proof fn lemma_up_creates_when_absent(ar: Result<(), ActionError>)
    ensures
        spec_trace(
            Trigger::Up,
            false,
            seq![
                Event::Queried(Err(GetResults::NotFound)),
                Event::Acted(Ok(())),
                Event::Acted(ar),
                Event::Acted(Ok(())),
            ],
        ) =~= seq![
            Step::Do(Action::Query),
            Step::Do(Action::CreateTunnel),
            Step::Do(Action::SetAltNames),
            Step::Do(Action::BringUp),
            Step::Stop(Ok(())),
        ],
{
    let e1 = Event::Queried(Err(GetResults::NotFound));
    let e2 = Event::Acted(Ok(()));
    let e3 = Event::Acted(ar);
    let e4 = Event::Acted(Ok(()));
    let full = seq![e1, e2, e3, e4];
    assert(full =~= seq![e1] + seq![e2, e3, e4]);
    lemma_run_unfold(Phase::UpQuery, false, e1, seq![e2, e3, e4]);
    assert(seq![e2, e3, e4] =~= seq![e2] + seq![e3, e4]);
    lemma_run_unfold(Phase::UpCreate, false, e2, seq![e3, e4]);
    assert(seq![e3, e4] =~= seq![e3] + seq![e4]);
    lemma_run_unfold(Phase::UpAltNames, false, e3, seq![e4]);
    assert(seq![e4] =~= seq![e4] + Seq::<Event>::empty());
    lemma_run_unfold(Phase::UpBringUp, false, e4, Seq::empty());
    assert(spec_run(Phase::Finished, false, Seq::empty()) =~= Seq::<Step>::empty());
}

/// A failed bring-up never leaves an orphan behind: the machine asks for
/// one cleanup delete in the default namespace and then aborts with the
/// bring-up failure as the root cause, whatever the cleanup's own outcome
/// `dr` was.
pub proof fn lemma_bringup_failure_cleans_up(
    has_ns: bool,
    ar: Result<(), ActionError>,
    e: ActionError,
    dr: Result<(), ActionError>,
)
    ensures
        spec_trace(
            Trigger::Up,
            has_ns,
            seq![
                Event::Queried(Err(GetResults::NotFound)),
                Event::Acted(Ok(())),
                Event::Acted(ar),
                Event::Acted(Err(e)),
                Event::Acted(dr),
            ],
        ) =~= seq![
            Step::Do(Action::Query),
            Step::Do(Action::CreateTunnel),
            Step::Do(Action::SetAltNames),
            Step::Do(Action::BringUp),
            Step::Do(Action::Delete(Scope::DefaultNs)),
            Step::Stop(Err(spec_err_of(OpKind::BringUp, e))),
        ],
{
    let e1 = Event::Queried(Err(GetResults::NotFound));
    let e2 = Event::Acted(Ok(()));
    let e3 = Event::Acted(ar);
    let e4 = Event::Acted(Err(e));
    let e5 = Event::Acted(dr);
    let full = seq![e1, e2, e3, e4, e5];
    assert(full =~= seq![e1] + seq![e2, e3, e4, e5]);
    lemma_run_unfold(Phase::UpQuery, has_ns, e1, seq![e2, e3, e4, e5]);
    assert(seq![e2, e3, e4, e5] =~= seq![e2] + seq![e3, e4, e5]);
    lemma_run_unfold(Phase::UpCreate, has_ns, e2, seq![e3, e4, e5]);
    assert(seq![e3, e4, e5] =~= seq![e3] + seq![e4, e5]);
    lemma_run_unfold(Phase::UpAltNames, has_ns, e3, seq![e4, e5]);
    assert(seq![e4, e5] =~= seq![e4] + seq![e5]);
    lemma_run_unfold(Phase::UpBringUp, has_ns, e4, seq![e5]);
    assert(seq![e5] =~= seq![e5] + Seq::<Event>::empty());
    lemma_run_unfold(Phase::UpAbortDelete(spec_err_of(OpKind::BringUp, e)), has_ns, e5, Seq::empty());
    assert(spec_run(Phase::Finished, has_ns, Seq::empty()) =~= Seq::<Step>::empty());
}

/// The relocation race is repaired by at most one remedial cycle: when the
/// first move into the target namespace fails, the machine asks for exactly
/// one delete inside the target namespace and one retried move, and when
/// that retry succeeds the whole reconciliation succeeds.  `ar` and `dr`
/// are the outcomes of the best-effort alternate-name assignment and of the
/// best-effort remedial delete: neither changes the course.
pub proof fn lemma_move_retry_recovers(
    ar: Result<(), ActionError>,
    me: ActionError,
    dr: Result<(), ActionError>,
)
    ensures
        spec_trace(
            Trigger::Up,
            true,
            seq![
                Event::Queried(Err(GetResults::NotFound)),
                Event::Acted(Ok(())),
                Event::Acted(ar),
                Event::Acted(Ok(())),
                Event::Acted(Err(me)),
                Event::Acted(dr),
                Event::Acted(Ok(())),
            ],
        ) =~= seq![
            Step::Do(Action::Query),
            Step::Do(Action::CreateTunnel),
            Step::Do(Action::SetAltNames),
            Step::Do(Action::BringUp),
            Step::Do(Action::MoveToNs),
            Step::Do(Action::Delete(Scope::TargetNs)),
            Step::Do(Action::MoveToNs),
            Step::Stop(Ok(())),
        ],
{
    let e1 = Event::Queried(Err(GetResults::NotFound));
    let e2 = Event::Acted(Ok(()));
    let e3 = Event::Acted(ar);
    let e4 = Event::Acted(Ok(()));
    let e5 = Event::Acted(Err(me));
    let e6 = Event::Acted(dr);
    let e7 = Event::Acted(Ok(()));
    let full = seq![e1, e2, e3, e4, e5, e6, e7];
    assert(full =~= seq![e1] + seq![e2, e3, e4, e5, e6, e7]);
    lemma_run_unfold(Phase::UpQuery, true, e1, seq![e2, e3, e4, e5, e6, e7]);
    assert(seq![e2, e3, e4, e5, e6, e7] =~= seq![e2] + seq![e3, e4, e5, e6, e7]);
    lemma_run_unfold(Phase::UpCreate, true, e2, seq![e3, e4, e5, e6, e7]);
    assert(seq![e3, e4, e5, e6, e7] =~= seq![e3] + seq![e4, e5, e6, e7]);
    lemma_run_unfold(Phase::UpAltNames, true, e3, seq![e4, e5, e6, e7]);
    assert(seq![e4, e5, e6, e7] =~= seq![e4] + seq![e5, e6, e7]);
    lemma_run_unfold(Phase::UpBringUp, true, e4, seq![e5, e6, e7]);
    assert(seq![e5, e6, e7] =~= seq![e5] + seq![e6, e7]);
    lemma_run_unfold(Phase::UpMoveFirst, true, e5, seq![e6, e7]);
    assert(seq![e6, e7] =~= seq![e6] + seq![e7]);
    lemma_run_unfold(Phase::UpRemedialDelete, true, e6, seq![e7]);
    assert(seq![e7] =~= seq![e7] + Seq::<Event>::empty());
    lemma_run_unfold(Phase::UpMoveRetry, true, e7, Seq::empty());
    assert(spec_run(Phase::Finished, true, Seq::empty()) =~= Seq::<Step>::empty());
}

} // verus!
