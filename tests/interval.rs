use absint::AbstractBool;
use absint::AbstractDomain;
use absint::{Interval, IntervalElem};
use std::cmp::Ordering;

#[test]
fn test_less_than() {
    assert_eq!(
        Interval::<i128>::from(10).less_than(&Interval::from(10)),
        // Equality always means not less than
        AbstractBool::False
    );
    assert_eq!(
        Interval::<i128>::from_interval(-10, 5).less_than(&Interval::from_interval(20, 30)),
        // Disjoint intervals where the first is less than the second always means less than
        AbstractBool::True
    );
    assert_eq!(
        Interval::<i128>::from_interval(20, 30).less_than(&Interval::from_interval(-10, 5)),
        // Disjoint intervals where the first is greater than the second always means not less than
        AbstractBool::False
    );
    assert_eq!(
        Interval::<i128>::from_interval(20, 30).less_than(&Interval::from_interval(0, 20)),
        // Intervals where the first is greater than or equal to the second always means not less than
        AbstractBool::False
    );
    assert_eq!(
        Interval::<i128>::from_interval(10, 30).less_than(&Interval::from_interval(0, 15)),
        // Overlapping intervals could be either less than or not less than
        AbstractBool::Top
    );
    assert_eq!(
        Interval::<i128>::from_interval(10, 20).less_than(&Interval::from_interval(20, 30)),
        // Touching bounds could be either less than or not less than
        AbstractBool::Top
    );
    assert_eq!(
        Interval::<i128> { lower: IntervalElem::NegInf, upper: IntervalElem::Elem(5) }
            .less_than(&Interval { lower: IntervalElem::Elem(20), upper: IntervalElem::Inf }),
        // Disjoint intervals with an infinite bound still compare
        AbstractBool::True
    );
    assert_eq!(
        Interval::<i128>::from_interval(10, 30).less_than(&Interval::from(0).top()),
        // Top overlaps with everything
        AbstractBool::Top
    );
    assert_eq!(
        Interval::<i128>::from(0).top().less_than(&Interval::from_interval(0, 15)),
        // Top overlaps with everything
        AbstractBool::Top
    );
}

#[test]
fn less_than_unsigned_intervals() {
    assert_eq!(Interval::<u128>::from_interval(0, 5).less_than(&Interval::from_interval(6, 9)), AbstractBool::True);
    assert_eq!(Interval::<u128>::from_interval(6, 9).less_than(&Interval::from_interval(0, 6)), AbstractBool::False);
    assert_eq!(Interval::<u128>::from_interval(0, 7).less_than(&Interval::from_interval(6, 9)), AbstractBool::Top);
}

#[test]
fn equals_disjoint_point_and_overlap() {
    assert_eq!(Interval::<i128>::from_interval(0, 5).equals(&Interval::from_interval(6, 9)), AbstractBool::False);
    assert_eq!(Interval::<i128>::from_interval(6, 9).equals(&Interval::from_interval(0, 5)), AbstractBool::False);
    assert_eq!(Interval::<i128>::from(4).equals(&Interval::from(4)), AbstractBool::True);
    assert_eq!(Interval::<i128>::from_interval(0, 5).equals(&Interval::from_interval(5, 9)), AbstractBool::Top);
    assert_eq!(Interval::<i128>::from(4).equals(&Interval::from_interval(4, 5)), AbstractBool::Top);
    let top = Interval::<i128>::from(0).top();
    assert_eq!(top.equals(&top), AbstractBool::Top);
    let at_inf = Interval::<i128> { lower: IntervalElem::Inf, upper: IntervalElem::Inf };
    assert_eq!(at_inf.equals(&at_inf), AbstractBool::Top);
}

#[test]
fn join_is_smallest_enclosing_interval() {
    let a = Interval::<i128>::from_interval(0, 5);
    let b = Interval::<i128>::from_interval(3, 9);
    assert_eq!(a.join(&b), Interval::from_interval(0, 9));
    assert_eq!(b.join(&a), Interval::from_interval(0, 9));
    assert_eq!(a.join(&a), a);
    let c = Interval::<i128> { lower: IntervalElem::NegInf, upper: IntervalElem::Elem(-3) };
    assert_eq!(a.join(&c), Interval { lower: IntervalElem::NegInf, upper: IntervalElem::Elem(5) });
}

#[test]
fn widen_snaps_moving_bounds_to_infinity() {
    let a = Interval::<i128>::from_interval(0, 5);
    assert_eq!(a.widen(&Interval::from_interval(1, 4)), a);
    assert_eq!(
        a.widen(&Interval::from_interval(-1, 5)),
        Interval { lower: IntervalElem::NegInf, upper: IntervalElem::Elem(5) }
    );
    assert_eq!(
        a.widen(&Interval::from_interval(0, 6)),
        Interval { lower: IntervalElem::Elem(0), upper: IntervalElem::Inf }
    );
    assert_eq!(a.widen(&Interval::from_interval(-1, 6)), a.top());
}

#[test]
fn widen_chain_stabilises_after_two_changes() {
    // A strictly growing chain that grows one bound at a time.
    let chain = [
        Interval::<i128>::from_interval(0, 1),
        Interval::<i128>::from_interval(0, 2),
        Interval::<i128>::from_interval(-1, 3),
        Interval::<i128>::from_interval(-2, 4),
        Interval::<i128>::from_interval(-3, 5),
    ];
    let mut w = chain[0];
    let mut changes: u32 = 0;
    for next in &chain[1..] {
        let widened = w.widen(next);
        if widened != w {
            changes += 1;
        }
        w = widened;
    }
    assert_eq!(changes, 2);
    assert_eq!(w, Interval { lower: IntervalElem::NegInf, upper: IntervalElem::Inf });
}

#[test]
fn add_is_elementwise_with_absorbing_infinities() {
    assert_eq!(
        Interval::<i128>::from_interval(1, 2).add(Interval::from_interval(10, 20)),
        Interval::from_interval(11, 22)
    );
    assert_eq!(
        Interval::<i128> { lower: IntervalElem::NegInf, upper: IntervalElem::Elem(2) }
            .add(Interval { lower: IntervalElem::Elem(1), upper: IntervalElem::Inf }),
        Interval { lower: IntervalElem::NegInf, upper: IntervalElem::Inf }
    );
    assert_eq!(
        Interval::<u128>::from_interval(3, 4).add(Interval::from_interval(5, 6)),
        Interval::from_interval(8, 10)
    );
}

#[test]
fn add_overflow_makes_the_bound_unbounded() {
    assert_eq!(
        Interval::<i128>::from_interval(0, i128::MAX).add(Interval::from_interval(1, 1)),
        Interval { lower: IntervalElem::Elem(1), upper: IntervalElem::Inf }
    );
    assert_eq!(
        Interval::<i128>::from_interval(i128::MIN, 0).add(Interval::from_interval(-1, -1)),
        Interval { lower: IntervalElem::NegInf, upper: IntervalElem::Elem(-1) }
    );
    assert_eq!(
        Interval::<u128>::from_interval(u128::MAX, u128::MAX).add(Interval::from_interval(1, 1)),
        Interval { lower: IntervalElem::NegInf, upper: IntervalElem::Inf }
    );
}

#[test]
fn bound_order_and_checked_add() {
    let neg: IntervalElem<i128> = IntervalElem::NegInf;
    let five = IntervalElem::Elem(5i128);
    let inf: IntervalElem<i128> = IntervalElem::Inf;
    assert_eq!(neg.cmp(&five), Ordering::Less);
    assert_eq!(five.cmp(&inf), Ordering::Less);
    assert_eq!(inf.cmp(&neg), Ordering::Greater);
    assert_eq!(five.cmp(&IntervalElem::Elem(5)), Ordering::Equal);
    assert_eq!(IntervalElem::Elem(7i128).cmp(&five), Ordering::Greater);
    assert_eq!(five.checked_add(&IntervalElem::Elem(2)), Some(IntervalElem::Elem(7)));
    assert_eq!(inf.checked_add(&neg), Some(IntervalElem::NegInf));
    assert_eq!(five.checked_add(&inf), Some(IntervalElem::Inf));
    assert_eq!(IntervalElem::Elem(i128::MAX).checked_add(&IntervalElem::Elem(1)), None);
}
