use swan_updown::trigger::parse_trigger;
use swan_updown::trigger::Trigger;
use swan_updown::text::str_eq;
use swan_updown::text::str_starts_with;

#[test]
fn up_triggers() {
    assert_eq!(parse_trigger("up-client"), Trigger::Up);
    assert_eq!(parse_trigger("up-client-v6"), Trigger::Up);
    assert_eq!(parse_trigger("up-client-ipv6"), Trigger::Up);
}

#[test]
fn down_triggers() {
    assert_eq!(parse_trigger("down-client"), Trigger::Down);
    assert_eq!(parse_trigger("down-client-v6"), Trigger::Down);
}

#[test]
fn other_triggers() {
    assert_eq!(parse_trigger(""), Trigger::Other);
    assert_eq!(parse_trigger("up"), Trigger::Other);
    assert_eq!(parse_trigger("up-host"), Trigger::Other);
    assert_eq!(parse_trigger("down"), Trigger::Other);
    assert_eq!(parse_trigger("route-client"), Trigger::Other);
    assert_eq!(parse_trigger("prepare-client"), Trigger::Other);
}

#[test]
fn starts_with_behaviour() {
    assert!(str_starts_with("up-client-v6", "up-client"));
    assert!(str_starts_with("abc", ""));
    assert!(!str_starts_with("up", "up-client"));
    assert!(!str_starts_with("xp-client", "up-client"));
}

#[test]
fn str_eq_behaviour() {
    assert!(str_eq("xfrm", "xfrm"));
    assert!(!str_eq("xfrm", "xfrM"));
    assert!(!str_eq("xfrm", "xfr"));
    assert!(!str_eq("", "x"));
    assert!(str_eq("", ""));
}
