use swan_updown::link::GetResults;
use swan_updown::reconcile::Action;
use swan_updown::reconcile::ActionError;
use swan_updown::reconcile::DesiredSpec;
use swan_updown::reconcile::Event;
use swan_updown::reconcile::OpKind;
use swan_updown::reconcile::ReconcileError;
use swan_updown::reconcile::Reconciler;
use swan_updown::reconcile::Scope;
use swan_updown::reconcile::Step;
use swan_updown::trigger::Trigger;

fn spec(netns: Option<&str>) -> DesiredSpec {
    DesiredSpec::new(
        "swan",
        42,
        vec![String::from("me <-> peer")],
        None,
        netns.map(String::from),
    )
}

#[test]
fn up_scenario_creates_absent_interface() {
    // Trigger "up-client", identifier 42, prefix "swan", no namespace: the
    // interface swan0000002a is created, brought up, and the run succeeds
    // with the single query having reported no pre-existing match.
    let (mut m, s) = Reconciler::start(Trigger::Up, spec(None));
    assert_eq!(m.dspec.name, "swan0000002a");
    assert_eq!(s, Step::Do(Action::Query));
    let s = m.step(Event::Queried(Err(GetResults::NotFound)));
    assert_eq!(s, Step::Do(Action::CreateTunnel));
    let s = m.step(Event::Acted(Ok(())));
    assert_eq!(s, Step::Do(Action::SetAltNames));
    let s = m.step(Event::Acted(Ok(())));
    assert_eq!(s, Step::Do(Action::BringUp));
    let s = m.step(Event::Acted(Ok(())));
    assert_eq!(s, Step::Stop(Ok(())));
}

#[test]
fn up_scenario_move_fails_once_then_succeeds() {
    // Same as above but with namespace "ns1" and a single transient move
    // failure: exactly one delete-then-retry cycle inside the target
    // namespace, and overall success.
    let (mut m, s) = Reconciler::start(Trigger::Up, spec(Some("ns1")));
    assert_eq!(s, Step::Do(Action::Query));
    let s = m.step(Event::Queried(Err(GetResults::NotFound)));
    assert_eq!(s, Step::Do(Action::CreateTunnel));
    let s = m.step(Event::Acted(Ok(())));
    assert_eq!(s, Step::Do(Action::SetAltNames));
    let s = m.step(Event::Acted(Ok(())));
    assert_eq!(s, Step::Do(Action::BringUp));
    let s = m.step(Event::Acted(Ok(())));
    assert_eq!(s, Step::Do(Action::MoveToNs));
    let s = m.step(Event::Acted(Err(ActionError::Kernel)));
    assert_eq!(s, Step::Do(Action::Delete(Scope::TargetNs)));
    assert_eq!(m.scope_netns(Scope::TargetNs), Some(String::from("ns1")));
    let s = m.step(Event::Acted(Ok(())));
    assert_eq!(s, Step::Do(Action::MoveToNs));
    let s = m.step(Event::Acted(Ok(())));
    assert_eq!(s, Step::Stop(Ok(())));
}

#[test]
fn up_on_matching_interface_is_noop() {
    let (mut m, s) = Reconciler::start(Trigger::Up, spec(None));
    assert_eq!(s, Step::Do(Action::Query));
    let s = m.step(Event::Queried(Ok(())));
    assert_eq!(s, Step::Stop(Ok(())));
}

#[test]
fn down_on_absent_interface_is_noop() {
    let (mut m, s) = Reconciler::start(Trigger::Down, spec(None));
    assert_eq!(s, Step::Do(Action::Query));
    let s = m.step(Event::Queried(Err(GetResults::NotFound)));
    assert_eq!(s, Step::Stop(Ok(())));
}

#[test]
fn down_deletes_whatever_matches_the_name() {
    let (mut m, s) = Reconciler::start(Trigger::Down, spec(Some("ns1")));
    assert_eq!(s, Step::Do(Action::Query));
    // Even a mismatched interface is eligible for teardown.
    let s = m.step(Event::Queried(Err(GetResults::IfIdNotMatch)));
    assert_eq!(s, Step::Do(Action::Delete(Scope::SpecNs)));
    assert_eq!(m.scope_netns(Scope::SpecNs), Some(String::from("ns1")));
    let s = m.step(Event::Acted(Ok(())));
    assert_eq!(s, Step::Stop(Ok(())));
}

#[test]
fn down_on_healthy_interface_deletes_it() {
    let (mut m, s) = Reconciler::start(Trigger::Down, spec(None));
    assert_eq!(s, Step::Do(Action::Query));
    let s = m.step(Event::Queried(Ok(())));
    assert_eq!(s, Step::Do(Action::Delete(Scope::SpecNs)));
    assert_eq!(m.scope_netns(Scope::SpecNs), None);
    let s = m.step(Event::Acted(Ok(())));
    assert_eq!(s, Step::Stop(Ok(())));
}

#[test]
fn mismatch_triggers_delete_then_create() {
    for mismatch in [
        GetResults::TypeNotMatch,
        GetResults::IfIdNotMatch,
        GetResults::IfOperStateNotMatch,
    ] {
        let (mut m, s) = Reconciler::start(Trigger::Up, spec(None));
        assert_eq!(s, Step::Do(Action::Query));
        let s = m.step(Event::Queried(Err(mismatch)));
        assert_eq!(s, Step::Do(Action::Delete(Scope::SpecNs)));
        let s = m.step(Event::Acted(Ok(())));
        assert_eq!(s, Step::Do(Action::CreateTunnel));
    }
}

#[test]
fn failed_query_also_repairs() {
    let (mut m, s) = Reconciler::start(Trigger::Up, spec(None));
    assert_eq!(s, Step::Do(Action::Query));
    let s = m.step(Event::Queried(Err(GetResults::NoHandle)));
    assert_eq!(s, Step::Do(Action::Delete(Scope::SpecNs)));
}

#[test]
fn repair_delete_failure_aborts() {
    let (mut m, _) = Reconciler::start(Trigger::Up, spec(None));
    let _ = m.step(Event::Queried(Err(GetResults::TypeNotMatch)));
    let s = m.step(Event::Acted(Err(ActionError::Kernel)));
    assert_eq!(
        s,
        Step::Stop(Err(ReconcileError::KernelOperationFailed(OpKind::Delete)))
    );
}

#[test]
fn create_failure_aborts() {
    let (mut m, _) = Reconciler::start(Trigger::Up, spec(None));
    let _ = m.step(Event::Queried(Err(GetResults::NotFound)));
    let s = m.step(Event::Acted(Err(ActionError::Kernel)));
    assert_eq!(
        s,
        Step::Stop(Err(ReconcileError::KernelOperationFailed(OpKind::Create)))
    );
}

#[test]
fn alt_name_failure_is_tolerated() {
    let (mut m, _) = Reconciler::start(Trigger::Up, spec(None));
    let _ = m.step(Event::Queried(Err(GetResults::NotFound)));
    let _ = m.step(Event::Acted(Ok(())));
    // Alternate names are metadata only: their failure changes nothing.
    let s = m.step(Event::Acted(Err(ActionError::Kernel)));
    assert_eq!(s, Step::Do(Action::BringUp));
    let s = m.step(Event::Acted(Ok(())));
    assert_eq!(s, Step::Stop(Ok(())));
}

#[test]
fn bringup_failure_cleans_up_and_aborts() {
    let (mut m, _) = Reconciler::start(Trigger::Up, spec(None));
    let _ = m.step(Event::Queried(Err(GetResults::NotFound)));
    let _ = m.step(Event::Acted(Ok(())));
    let _ = m.step(Event::Acted(Ok(())));
    let s = m.step(Event::Acted(Err(ActionError::Kernel)));
    assert_eq!(s, Step::Do(Action::Delete(Scope::DefaultNs)));
    let s = m.step(Event::Acted(Ok(())));
    assert_eq!(
        s,
        Step::Stop(Err(ReconcileError::KernelOperationFailed(OpKind::BringUp)))
    );
}

#[test]
fn second_move_failure_cleans_up_and_aborts() {
    let (mut m, _) = Reconciler::start(Trigger::Up, spec(Some("ns1")));
    let _ = m.step(Event::Queried(Err(GetResults::NotFound)));
    let _ = m.step(Event::Acted(Ok(())));
    let _ = m.step(Event::Acted(Ok(())));
    let _ = m.step(Event::Acted(Ok(())));
    let s = m.step(Event::Acted(Err(ActionError::Kernel)));
    assert_eq!(s, Step::Do(Action::Delete(Scope::TargetNs)));
    let s = m.step(Event::Acted(Err(ActionError::Kernel)));
    assert_eq!(s, Step::Do(Action::MoveToNs));
    let s = m.step(Event::Acted(Err(ActionError::Kernel)));
    assert_eq!(s, Step::Do(Action::Delete(Scope::DefaultNs)));
    let s = m.step(Event::Acted(Ok(())));
    assert_eq!(
        s,
        Step::Stop(Err(ReconcileError::KernelOperationFailed(OpKind::Move)))
    );
}

#[test]
fn vanished_namespace_surfaces_as_unavailable() {
    let (mut m, _) = Reconciler::start(Trigger::Up, spec(Some("ns1")));
    let _ = m.step(Event::Queried(Err(GetResults::NotFound)));
    let _ = m.step(Event::Acted(Ok(())));
    let _ = m.step(Event::Acted(Ok(())));
    let _ = m.step(Event::Acted(Ok(())));
    let _ = m.step(Event::Acted(Err(ActionError::NamespaceUnavailable)));
    let _ = m.step(Event::Acted(Err(ActionError::NamespaceUnavailable)));
    let s = m.step(Event::Acted(Err(ActionError::NamespaceUnavailable)));
    assert_eq!(s, Step::Do(Action::Delete(Scope::DefaultNs)));
    let s = m.step(Event::Acted(Ok(())));
    assert_eq!(s, Step::Stop(Err(ReconcileError::NamespaceUnavailable)));
}

#[test]
fn unrecognized_trigger_is_noop() {
    let (m, s) = Reconciler::start(Trigger::Other, spec(None));
    assert_eq!(s, Step::Stop(Ok(())));
    assert_eq!(m.dspec.if_id, 42);
}

#[test]
fn error_messages_name_the_operation() {
    assert_eq!(
        ReconcileError::KernelOperationFailed(OpKind::BringUp).message(),
        "kernel bring-up operation failed"
    );
    assert_eq!(
        ReconcileError::KernelOperationFailed(OpKind::Create).message(),
        "kernel create operation failed"
    );
    assert_eq!(
        ReconcileError::NamespaceUnavailable.message(),
        "target namespace unavailable"
    );
}

#[test]
fn no_namespace_scopes_resolve_to_default() {
    let (m, _) = Reconciler::start(Trigger::Up, spec(None));
    assert_eq!(m.scope_netns(Scope::DefaultNs), None);
    assert_eq!(m.scope_netns(Scope::SpecNs), None);
    assert_eq!(m.scope_netns(Scope::TargetNs), None);
}
