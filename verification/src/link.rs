//! Classification of a link's attribute records against a desired
//! specification: is the link a tunnel-kind device, does it carry the
//! expected tunnel identifier, and is its operational state acceptable.
//!
//! The kernel reports a link as a list of typed attribute records, with the
//! type information nested inside one of them.  Classification scans that
//! finite list per category — kind marker, tunnel identifier, operational
//! state — and the first record of each category wins.

use vstd::prelude::*;

use crate::text::str_eq;

verus! {

/// Outcome classes of a link query, as the reconciler branches on them.
/// `NotFound` is a branch condition, not a failure; the three mismatch
/// variants trigger repair; `NoHandle` and `TokioJoinError` report that the
/// query itself could not be carried out.
#[derive(Clone, Copy, Debug, PartialEq, Eq, Structural)]
pub enum GetResults {
    TypeNotMatch,
    IfIdNotMatch,
    IfOperStateNotMatch,
    NotFound,
    TokioJoinError,
    NoHandle,
}

/// Operational state reported for a link.  Only `Up` and `Unknown` count as
/// a healthy interface.
#[derive(Clone, Copy, Debug, PartialEq, Eq, Structural)]
pub enum OperState {
    Up,
    Unknown,
    Other,
}

/// The kind marker carried in a link's type-info records: either the
/// tunnel kind itself, or some kind described by name.
#[derive(Debug, Clone)]
pub enum KindRecord {
    Tunnel,
    Described(String),
}

/// A record nested in the tunnel-specific data of a link's type info.
#[derive(Debug, Clone)]
pub enum TunnelRecord {
    IfId(u32),
    Other,
}

/// A record of a link's type info.
#[derive(Debug)]
pub enum InfoRecord {
    Kind(KindRecord),
    TunnelData(Vec<TunnelRecord>),
    Other,
}

/// An attribute record of a link.
#[derive(Debug)]
pub enum LinkRecord {
    Info(Vec<InfoRecord>),
    OperState(OperState),
    Other,
}

/// What a link turns out to be, kind-wise.
#[derive(Debug, Clone)]
pub enum LinkKind {
    Tunnel,
    Other(String),
}

/// What a query observes of a link, per category; `None` in a category means
/// the kernel reported no record of it.
#[derive(Debug)]
pub struct ObservedState {
    pub exists: bool,
    pub kind: Option<LinkKind>,
    pub tunnel_id: Option<u32>,
    pub oper_state: Option<OperState>,
}

/// How a kind marker is read: the tunnel marker, or a described kind whose
/// description spells the tunnel kind's name, counts as a tunnel.
pub open spec fn spec_kind_of(k: KindRecord) -> LinkKind {
    match k {
        KindRecord::Tunnel => LinkKind::Tunnel,
        KindRecord::Described(d) => if d@ == "xfrm"@ {
            LinkKind::Tunnel
        } else {
            LinkKind::Other(d)
        },
    }
}

/// First kind marker among a type info's records.
pub open spec fn spec_first_kind_info(infos: Seq<InfoRecord>) -> Option<LinkKind>
    decreases infos.len(),
{
    if infos.len() == 0 {
        None
    } else {
        match infos[0] {
            InfoRecord::Kind(k) => Some(spec_kind_of(k)),
            _ => spec_first_kind_info(infos.drop_first()),
        }
    }
}

/// First kind marker among a link's records.
pub open spec fn spec_first_kind(rs: Seq<LinkRecord>) -> Option<LinkKind>
    decreases rs.len(),
{
    if rs.len() == 0 {
        None
    } else {
        match rs[0] {
            LinkRecord::Info(infos) => match spec_first_kind_info(infos@) {
                Some(k) => Some(k),
                None => spec_first_kind(rs.drop_first()),
            },
            _ => spec_first_kind(rs.drop_first()),
        }
    }
}

/// First tunnel identifier among tunnel-data records.
pub open spec fn spec_first_ifid_tun(ts: Seq<TunnelRecord>) -> Option<u32>
    decreases ts.len(),
{
    if ts.len() == 0 {
        None
    } else {
        match ts[0] {
            TunnelRecord::IfId(id) => Some(id),
            _ => spec_first_ifid_tun(ts.drop_first()),
        }
    }
}

/// First tunnel identifier among a type info's records.
pub open spec fn spec_first_ifid_info(infos: Seq<InfoRecord>) -> Option<u32>
    decreases infos.len(),
{
    if infos.len() == 0 {
        None
    } else {
        match infos[0] {
            InfoRecord::TunnelData(ts) => match spec_first_ifid_tun(ts@) {
                Some(id) => Some(id),
                None => spec_first_ifid_info(infos.drop_first()),
            },
            _ => spec_first_ifid_info(infos.drop_first()),
        }
    }
}

/// First tunnel identifier among a link's records.
pub open spec fn spec_first_ifid(rs: Seq<LinkRecord>) -> Option<u32>
    decreases rs.len(),
{
    if rs.len() == 0 {
        None
    } else {
        match rs[0] {
            LinkRecord::Info(infos) => match spec_first_ifid_info(infos@) {
                Some(id) => Some(id),
                None => spec_first_ifid(rs.drop_first()),
            },
            _ => spec_first_ifid(rs.drop_first()),
        }
    }
}

/// First operational state among a link's records.
pub open spec fn spec_first_oper(rs: Seq<LinkRecord>) -> Option<OperState>
    decreases rs.len(),
{
    if rs.len() == 0 {
        None
    } else {
        match rs[0] {
            LinkRecord::OperState(st) => Some(st),
            _ => spec_first_oper(rs.drop_first()),
        }
    }
}

/// The observation owed to an existing link's records.
pub open spec fn spec_observe(rs: Seq<LinkRecord>) -> ObservedState {
    ObservedState {
        exists: true,
        kind: spec_first_kind(rs),
        tunnel_id: spec_first_ifid(rs),
        oper_state: spec_first_oper(rs),
    }
}

/// The observation of an absent link.
pub open spec fn spec_absent() -> ObservedState {
    ObservedState { exists: false, kind: None, tunnel_id: None, oper_state: None }
}

/// The observation owed to a query result: the records when the link exists,
/// absence otherwise.
pub open spec fn spec_observed_of(link: Option<&Vec<LinkRecord>>) -> ObservedState {
    match link {
        Some(rs) => spec_observe(rs@),
        None => spec_absent(),
    }
}

/// The verdict on an observation, checked in this order: existence, kind
/// (a kind marker is required and must be the tunnel kind), tunnel
/// identifier (only checked when one is reported), operational state (only
/// `Up` and `Unknown` pass; an unreported state passes).
pub open spec fn spec_check(obs: ObservedState, expected_if_id: u32) -> Result<(), GetResults> {
    if !obs.exists {
        Err(GetResults::NotFound)
    } else if !(obs.kind matches Some(LinkKind::Tunnel)) {
        Err(GetResults::TypeNotMatch)
    } else if obs.tunnel_id matches Some(id) && id != expected_if_id {
        Err(GetResults::IfIdNotMatch)
    } else if obs.oper_state matches Some(OperState::Other) {
        Err(GetResults::IfOperStateNotMatch)
    } else {
        Ok(())
    }
}

/// Read a kind marker.
fn kind_of(k: &KindRecord) -> (r: LinkKind)
    ensures
        r == spec_kind_of(*k),
{
    match k {
        KindRecord::Tunnel => LinkKind::Tunnel,
        KindRecord::Described(d) => {
            if str_eq(d.as_str(), "xfrm") {
                LinkKind::Tunnel
            } else {
                LinkKind::Other(d.clone())
            }
        },
    }
}

fn first_kind_info(infos: &Vec<InfoRecord>) -> (r: Option<LinkKind>)
    ensures
        r == spec_first_kind_info(infos@),
{
    let n = infos.len();
    let mut i: usize = 0;
    proof {
        assert(infos@.subrange(0, n as int) =~= infos@);
    }
    while i < n
        invariant
            n == infos@.len(),
            i <= n,
            spec_first_kind_info(infos@) == spec_first_kind_info(
                infos@.subrange(i as int, n as int),
            ),
        decreases n - i,
    {
        proof {
            assert(infos@.subrange(i as int, n as int)[0] == infos@[i as int]);
            assert(infos@.subrange(i as int, n as int).drop_first() =~= infos@.subrange(
                i + 1 as int,
                n as int,
            ));
        }
        match &infos[i] {
            InfoRecord::Kind(k) => {
                return Some(kind_of(k));
            },
            _ => {},
        }
        i = i + 1;
    }
    proof {
        assert(infos@.subrange(n as int, n as int).len() == 0);
    }
    None
}

fn first_kind(records: &Vec<LinkRecord>) -> (r: Option<LinkKind>)
    ensures
        r == spec_first_kind(records@),
{
    let n = records.len();
    let mut i: usize = 0;
    proof {
        assert(records@.subrange(0, n as int) =~= records@);
    }
    while i < n
        invariant
            n == records@.len(),
            i <= n,
            spec_first_kind(records@) == spec_first_kind(records@.subrange(i as int, n as int)),
        decreases n - i,
    {
        proof {
            assert(records@.subrange(i as int, n as int)[0] == records@[i as int]);
            assert(records@.subrange(i as int, n as int).drop_first() =~= records@.subrange(
                i + 1 as int,
                n as int,
            ));
        }
        match &records[i] {
            LinkRecord::Info(infos) => {
                if let Some(k) = first_kind_info(infos) {
                    return Some(k);
                }
            },
            _ => {},
        }
        i = i + 1;
    }
    proof {
        assert(records@.subrange(n as int, n as int).len() == 0);
    }
    None
}

fn first_ifid_tun(ts: &Vec<TunnelRecord>) -> (r: Option<u32>)
    ensures
        r == spec_first_ifid_tun(ts@),
{
    let n = ts.len();
    let mut i: usize = 0;
    proof {
        assert(ts@.subrange(0, n as int) =~= ts@);
    }
    while i < n
        invariant
            n == ts@.len(),
            i <= n,
            spec_first_ifid_tun(ts@) == spec_first_ifid_tun(ts@.subrange(i as int, n as int)),
        decreases n - i,
    {
        proof {
            assert(ts@.subrange(i as int, n as int)[0] == ts@[i as int]);
            assert(ts@.subrange(i as int, n as int).drop_first() =~= ts@.subrange(
                i + 1 as int,
                n as int,
            ));
        }
        match &ts[i] {
            TunnelRecord::IfId(id) => {
                return Some(*id);
            },
            _ => {},
        }
        i = i + 1;
    }
    proof {
        assert(ts@.subrange(n as int, n as int).len() == 0);
    }
    None
}

fn first_ifid_info(infos: &Vec<InfoRecord>) -> (r: Option<u32>)
    ensures
        r == spec_first_ifid_info(infos@),
{
    let n = infos.len();
    let mut i: usize = 0;
    proof {
        assert(infos@.subrange(0, n as int) =~= infos@);
    }
    while i < n
        invariant
            n == infos@.len(),
            i <= n,
            spec_first_ifid_info(infos@) == spec_first_ifid_info(
                infos@.subrange(i as int, n as int),
            ),
        decreases n - i,
    {
        proof {
            assert(infos@.subrange(i as int, n as int)[0] == infos@[i as int]);
            assert(infos@.subrange(i as int, n as int).drop_first() =~= infos@.subrange(
                i + 1 as int,
                n as int,
            ));
        }
        match &infos[i] {
            InfoRecord::TunnelData(ts) => {
                if let Some(id) = first_ifid_tun(ts) {
                    return Some(id);
                }
            },
            _ => {},
        }
        i = i + 1;
    }
    proof {
        assert(infos@.subrange(n as int, n as int).len() == 0);
    }
    None
}

fn first_ifid(records: &Vec<LinkRecord>) -> (r: Option<u32>)
    ensures
        r == spec_first_ifid(records@),
{
    let n = records.len();
    let mut i: usize = 0;
    proof {
        assert(records@.subrange(0, n as int) =~= records@);
    }
    while i < n
        invariant
            n == records@.len(),
            i <= n,
            spec_first_ifid(records@) == spec_first_ifid(records@.subrange(i as int, n as int)),
        decreases n - i,
    {
        proof {
            assert(records@.subrange(i as int, n as int)[0] == records@[i as int]);
            assert(records@.subrange(i as int, n as int).drop_first() =~= records@.subrange(
                i + 1 as int,
                n as int,
            ));
        }
        match &records[i] {
            LinkRecord::Info(infos) => {
                if let Some(id) = first_ifid_info(infos) {
                    return Some(id);
                }
            },
            _ => {},
        }
        i = i + 1;
    }
    proof {
        assert(records@.subrange(n as int, n as int).len() == 0);
    }
    None
}

fn first_oper(records: &Vec<LinkRecord>) -> (r: Option<OperState>)
    ensures
        r == spec_first_oper(records@),
{
    let n = records.len();
    let mut i: usize = 0;
    proof {
        assert(records@.subrange(0, n as int) =~= records@);
    }
    while i < n
        invariant
            n == records@.len(),
            i <= n,
            spec_first_oper(records@) == spec_first_oper(records@.subrange(i as int, n as int)),
        decreases n - i,
    {
        proof {
            assert(records@.subrange(i as int, n as int)[0] == records@[i as int]);
            assert(records@.subrange(i as int, n as int).drop_first() =~= records@.subrange(
                i + 1 as int,
                n as int,
            ));
        }
        match &records[i] {
            LinkRecord::OperState(st) => {
                return Some(*st);
            },
            _ => {},
        }
        i = i + 1;
    }
    proof {
        assert(records@.subrange(n as int, n as int).len() == 0);
    }
    None
}

impl ObservedState {
    /// The observation of an absent link.
    pub fn absent() -> (r: ObservedState)
        ensures
            r == spec_absent(),
    {
        ObservedState { exists: false, kind: None, tunnel_id: None, oper_state: None }
    }
}

/// Observe an existing link: scan its records once per category, first
/// record of each category winning.
pub fn observe_link(records: &Vec<LinkRecord>) -> (r: ObservedState)
    ensures
        r == spec_observe(records@),
{
    ObservedState {
        exists: true,
        kind: first_kind(records),
        tunnel_id: first_ifid(records),
        oper_state: first_oper(records),
    }
}

/// Check an observation against the expected tunnel identifier.
pub fn check_observed(obs: &ObservedState, expected_if_id: u32) -> (r: Result<(), GetResults>)
    ensures
        r == spec_check(*obs, expected_if_id),
{
    if !obs.exists {
        return Err(GetResults::NotFound);
    }
    match &obs.kind {
        Some(LinkKind::Tunnel) => {},
        _ => {
            return Err(GetResults::TypeNotMatch);
        },
    }
    match obs.tunnel_id {
        Some(id) if id != expected_if_id => {
            return Err(GetResults::IfIdNotMatch);
        },
        _ => {},
    }
    match obs.oper_state {
        Some(OperState::Other) => Err(GetResults::IfOperStateNotMatch),
        _ => Ok(()),
    }
}

/// Classify a query result in one call: the records of the link when one
/// exists, or `None` when the kernel reported no link of the name.
pub fn classify_link(link: Option<&Vec<LinkRecord>>, expected_if_id: u32) -> (r: Result<
    (),
    GetResults,
>)
    ensures
        r == spec_check(spec_observed_of(link), expected_if_id),
{
    match link {
        Some(records) => {
            let obs = observe_link(records);
            check_observed(&obs, expected_if_id)
        },
        None => {
            let obs = ObservedState::absent();
            check_observed(&obs, expected_if_id)
        },
    }
}

} // verus!
