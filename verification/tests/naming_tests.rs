use swan_updown::naming::synthesize;
use swan_updown::reconcile::DesiredSpec;

#[test]
fn synthesize_known_value() {
    assert_eq!(synthesize("swan", 42), "swan0000002a");
}

#[test]
fn synthesize_zero() {
    assert_eq!(synthesize("swan", 0), "swan00000000");
}

#[test]
fn synthesize_max() {
    assert_eq!(synthesize("swan", u32::MAX), "swanffffffff");
}

#[test]
fn synthesize_empty_prefix() {
    assert_eq!(synthesize("", 1), "00000001");
}

#[test]
fn synthesize_big_endian_order() {
    assert_eq!(synthesize("x", 0x12345678), "x12345678");
    assert_eq!(synthesize("x", 0xdeadbeef), "xdeadbeef");
}

#[test]
fn synthesize_deterministic() {
    assert_eq!(synthesize("swan", 7), synthesize("swan", 7));
}

#[test]
fn synthesize_injective_examples() {
    assert_ne!(synthesize("swan", 1), synthesize("swan", 2));
    assert_ne!(synthesize("swan", 0), synthesize("swan", u32::MAX));
    assert_ne!(synthesize("swan", 0x100), synthesize("swan", 0x1));
}

#[test]
fn desired_spec_derives_name() {
    let d = DesiredSpec::new("swan", 42, Vec::new(), None, None);
    assert_eq!(d.name, "swan0000002a");
    assert_eq!(d.if_id, 42);
    assert!(d.master_dev.is_none());
    assert!(d.netns.is_none());
}
