use absint::AbstractBool;
use absint::AbstractDomain;
use std::cmp::Ordering;

const ALL: [AbstractBool; 4] = [AbstractBool::Top, AbstractBool::True, AbstractBool::False, AbstractBool::Bot];

#[test]
fn join_idempotent_and_top_absorbing() {
    for b in ALL {
        assert_eq!(b.join(&b), b);
        assert_eq!(b.join(&AbstractBool::Top), AbstractBool::Top);
        assert_eq!(AbstractBool::Top.join(&b), AbstractBool::Top);
    }
}

#[test]
fn join_of_incomparable_is_top_and_bot_is_neutral() {
    assert_eq!(AbstractBool::True.join(&AbstractBool::False), AbstractBool::Top);
    assert_eq!(AbstractBool::False.join(&AbstractBool::True), AbstractBool::Top);
    for b in ALL {
        assert_eq!(AbstractBool::Bot.join(&b), b);
        assert_eq!(b.join(&AbstractBool::Bot), b);
    }
}

#[test]
fn widen_matches_join() {
    for a in ALL {
        for b in ALL {
            assert_eq!(a.widen(&b), a.join(&b));
        }
    }
    assert_eq!(AbstractBool::Bot.widen(&AbstractBool::True), AbstractBool::True);
    assert_eq!(AbstractBool::False.widen(&AbstractBool::Top), AbstractBool::Top);
}

#[test]
fn equals_propagates_top_then_bot() {
    assert_eq!(AbstractBool::Top.equals(&AbstractBool::True), AbstractBool::Top);
    assert_eq!(AbstractBool::Bot.equals(&AbstractBool::Top), AbstractBool::Top);
    for b in [AbstractBool::True, AbstractBool::False, AbstractBool::Bot] {
        assert_eq!(AbstractBool::Bot.equals(&b), AbstractBool::Bot);
        assert_eq!(b.equals(&AbstractBool::Bot), AbstractBool::Bot);
    }
    assert_eq!(AbstractBool::True.equals(&AbstractBool::True), AbstractBool::True);
    assert_eq!(AbstractBool::False.equals(&AbstractBool::False), AbstractBool::True);
    assert_eq!(AbstractBool::True.equals(&AbstractBool::False), AbstractBool::False);
}

#[test]
fn lattice_order() {
    assert_eq!(AbstractBool::Bot.partial_cmp(&AbstractBool::True), Some(Ordering::Less));
    assert_eq!(AbstractBool::Top.partial_cmp(&AbstractBool::False), Some(Ordering::Greater));
    assert_eq!(AbstractBool::True.partial_cmp(&AbstractBool::False), None);
    assert_eq!(AbstractBool::False.partial_cmp(&AbstractBool::False), Some(Ordering::Equal));
    assert!(AbstractBool::Bot < AbstractBool::Top);
    assert!(!(AbstractBool::True < AbstractBool::False));
}

#[test]
fn from_concrete_bool_and_top() {
    assert_eq!(AbstractBool::from(true), AbstractBool::True);
    assert_eq!(AbstractBool::from(false), AbstractBool::False);
    assert_eq!(AbstractBool::Bot.top(), AbstractBool::Top);
}
