use options_pricing::side::{Edge, Side};

#[test]
fn sign_of_each_side() {
    assert_eq!(Side::Call.sign(), 1);
    assert_eq!(Side::Put.sign(), -1);
}

#[test]
fn call_vanishes_low_and_put_vanishes_high() {
    assert!(Side::Call.vanishes_at(Edge::Minus));
    assert!(!Side::Call.vanishes_at(Edge::Plus));
    assert!(Side::Put.vanishes_at(Edge::Plus));
    assert!(!Side::Put.vanishes_at(Edge::Minus));
}
