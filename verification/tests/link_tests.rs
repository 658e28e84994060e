use swan_updown::link::check_observed;
use swan_updown::link::classify_link;
use swan_updown::link::observe_link;
use swan_updown::link::GetResults;
use swan_updown::link::InfoRecord;
use swan_updown::link::KindRecord;
use swan_updown::link::LinkKind;
use swan_updown::link::LinkRecord;
use swan_updown::link::ObservedState;
use swan_updown::link::OperState;
use swan_updown::link::TunnelRecord;

fn tunnel_link(if_id: u32, oper: OperState) -> Vec<LinkRecord> {
    vec![
        LinkRecord::Info(vec![
            InfoRecord::Kind(KindRecord::Tunnel),
            InfoRecord::TunnelData(vec![TunnelRecord::IfId(if_id)]),
        ]),
        LinkRecord::OperState(oper),
    ]
}

#[test]
fn matching_tunnel_is_ok() {
    let records = tunnel_link(42, OperState::Up);
    assert_eq!(classify_link(Some(&records), 42), Ok(()));
}

#[test]
fn unknown_oper_state_is_ok() {
    let records = tunnel_link(42, OperState::Unknown);
    assert_eq!(classify_link(Some(&records), 42), Ok(()));
}

#[test]
fn absent_link_is_not_found() {
    assert_eq!(classify_link(None, 42), Err(GetResults::NotFound));
}

#[test]
fn wrong_identifier_mismatches() {
    let records = tunnel_link(7, OperState::Up);
    assert_eq!(classify_link(Some(&records), 42), Err(GetResults::IfIdNotMatch));
}

#[test]
fn down_state_mismatches() {
    let records = tunnel_link(42, OperState::Other);
    assert_eq!(classify_link(Some(&records), 42), Err(GetResults::IfOperStateNotMatch));
}

#[test]
fn described_tunnel_kind_counts_as_tunnel() {
    let records = vec![LinkRecord::Info(vec![InfoRecord::Kind(KindRecord::Described(
        String::from("xfrm"),
    ))])];
    assert_eq!(classify_link(Some(&records), 42), Ok(()));
}

#[test]
fn foreign_kind_mismatches() {
    let records = vec![LinkRecord::Info(vec![InfoRecord::Kind(KindRecord::Described(
        String::from("veth"),
    ))])];
    assert_eq!(classify_link(Some(&records), 42), Err(GetResults::TypeNotMatch));
}

#[test]
fn missing_kind_marker_mismatches() {
    let records = vec![
        LinkRecord::Info(vec![InfoRecord::TunnelData(vec![TunnelRecord::IfId(42)])]),
        LinkRecord::OperState(OperState::Up),
    ];
    assert_eq!(classify_link(Some(&records), 42), Err(GetResults::TypeNotMatch));
}

#[test]
fn missing_identifier_passes_identifier_check() {
    let records = vec![LinkRecord::Info(vec![InfoRecord::Kind(KindRecord::Tunnel)])];
    assert_eq!(classify_link(Some(&records), 42), Ok(()));
}

#[test]
fn first_kind_marker_wins() {
    let records = vec![LinkRecord::Info(vec![
        InfoRecord::Kind(KindRecord::Described(String::from("veth"))),
        InfoRecord::Kind(KindRecord::Tunnel),
    ])];
    assert_eq!(classify_link(Some(&records), 42), Err(GetResults::TypeNotMatch));
}

#[test]
fn first_identifier_wins() {
    let records = vec![LinkRecord::Info(vec![
        InfoRecord::Kind(KindRecord::Tunnel),
        InfoRecord::TunnelData(vec![TunnelRecord::Other, TunnelRecord::IfId(42)]),
        InfoRecord::TunnelData(vec![TunnelRecord::IfId(7)]),
    ])];
    assert_eq!(classify_link(Some(&records), 42), Ok(()));
    assert_eq!(classify_link(Some(&records), 7), Err(GetResults::IfIdNotMatch));
}

#[test]
fn empty_record_list_has_no_kind() {
    let records: Vec<LinkRecord> = Vec::new();
    assert_eq!(classify_link(Some(&records), 42), Err(GetResults::TypeNotMatch));
}

#[test]
fn observe_reports_categories() {
    let records = tunnel_link(42, OperState::Up);
    let obs = observe_link(&records);
    assert!(obs.exists);
    assert!(matches!(obs.kind, Some(LinkKind::Tunnel)));
    assert_eq!(obs.tunnel_id, Some(42));
    assert_eq!(obs.oper_state, Some(OperState::Up));
}

#[test]
fn absent_observation_checks_not_found() {
    let obs = ObservedState::absent();
    assert_eq!(check_observed(&obs, 1), Err(GetResults::NotFound));
}
