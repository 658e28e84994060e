//! Classification of the invocation trigger.  Any trigger prefixed
//! `up-client` starts the up path, any prefixed `down-client` the down path,
//! and every other trigger is left alone.

use vstd::prelude::*;

use crate::text::spec_starts_with;
use crate::text::str_starts_with;

verus! {

/// The three ways an invocation trigger can be read.
#[derive(Clone, Copy, Debug, PartialEq, Eq, Structural)]
pub enum Trigger {
    Up,
    Down,
    Other,
}

/// How a trigger string is read: the up prefix wins, then the down prefix,
/// and everything else is no concern of this tool.
pub open spec fn spec_trigger(t: Seq<char>) -> Trigger {
    if spec_starts_with(t, "up-client"@) {
        Trigger::Up
    } else if spec_starts_with(t, "down-client"@) {
        Trigger::Down
    } else {
        Trigger::Other
    }
}

/// Classify a trigger string.
pub fn parse_trigger(t: &str) -> (r: Trigger)
    ensures
        r == spec_trigger(t@),
{
    if str_starts_with(t, "up-client") {
        Trigger::Up
    } else if str_starts_with(t, "down-client") {
        Trigger::Down
    } else {
        Trigger::Other
    }
}

} // verus!
