use vstd::prelude::*;

use crate::domains::booleans::AbstractBool;
use crate::domains::domain::AbstractDomain;
use core::cmp::Ordering;

verus! {

/// A totally ordered numeric type that can bound an interval. Each value is
/// embedded in the mathematical integers, which fixes both its order and its
/// sum.
pub trait Scalar: Copy + Sized {
    spec fn value(self) -> int;

    spec fn min_value() -> int;

    spec fn max_value() -> int;

    /// The value of the given integer, for integers in range.
    spec fn from_int(v: int) -> Self;

    proof fn lemma_value_injective(x: Self, y: Self)
        ensures
            x.value() == y.value() ==> x == y,
    ;

    proof fn lemma_from_int(v: int)
        requires
            Self::min_value() <= v <= Self::max_value(),
        ensures
            Self::from_int(v).value() == v,
    ;

    fn below(&self, other: &Self) -> (r: bool)
        ensures
            r == (self.value() < other.value()),
    ;

    /// The sum, or `None` where it does not fit in the type.
    fn checked_sum(&self, other: &Self) -> (r: Option<Self>)
        ensures
            r == (if Self::min_value() <= self.value() + other.value() <= Self::max_value() {
                Some(Self::from_int(self.value() + other.value()))
            } else {
                None
            }),
    ;
}

impl Scalar for i128 {
    open spec fn value(self) -> int {
        self as int
    }

    open spec fn min_value() -> int {
        i128::MIN as int
    }

    open spec fn max_value() -> int {
        i128::MAX as int
    }

    open spec fn from_int(v: int) -> i128 {
        v as i128
    }

    proof fn lemma_value_injective(x: i128, y: i128) {
    }

    proof fn lemma_from_int(v: int) {
    }

    fn below(&self, other: &i128) -> (r: bool) {
        *self < *other
    }

    fn checked_sum(&self, other: &i128) -> (r: Option<i128>) {
        self.checked_add(*other)
    }
}

impl Scalar for u128 {
    open spec fn value(self) -> int {
        self as int
    }

    open spec fn min_value() -> int {
        0
    }

    open spec fn max_value() -> int {
        u128::MAX as int
    }

    open spec fn from_int(v: int) -> u128 {
        v as u128
    }

    proof fn lemma_value_injective(x: u128, y: u128) {
    }

    proof fn lemma_from_int(v: int) {
    }

    fn below(&self, other: &u128) -> (r: bool) {
        *self < *other
    }

    fn checked_sum(&self, other: &u128) -> (r: Option<u128>) {
        self.checked_add(*other)
    }
}

/// A bound of an interval: an element, or plus or minus infinity.
#[derive(Eq, PartialEq, Copy, Clone, Debug)]
pub enum IntervalElem<T: Scalar> {
    Inf,
    Elem(T),
    NegInf,
}

/// The inclusive range of values between `lower` and `upper`.
#[derive(Eq, PartialEq, Copy, Clone, Debug)]
pub struct Interval<T: Scalar> {
    pub lower: IntervalElem<T>,
    pub upper: IntervalElem<T>,
}

impl<T: Scalar> IntervalElem<T> {
    /// The strict order on bounds: `NegInf < Elem(x) < Inf`, and elements
    /// by their value.
    pub open spec fn precedes(self, other: IntervalElem<T>) -> bool {
        match (self, other) {
            (IntervalElem::NegInf, IntervalElem::NegInf) => false,
            (IntervalElem::NegInf, _) => true,
            (_, IntervalElem::NegInf) => false,
            (IntervalElem::Inf, _) => false,
            (IntervalElem::Elem(_), IntervalElem::Inf) => true,
            (IntervalElem::Elem(a), IntervalElem::Elem(b)) => a.value() < b.value(),
        }
    }

    pub open spec fn at_most(self, other: IntervalElem<T>) -> bool {
        !other.precedes(self)
    }

    pub open spec fn spec_min(self, other: IntervalElem<T>) -> IntervalElem<T> {
        if other.precedes(self) {
            other
        } else {
            self
        }
    }

    pub open spec fn spec_max(self, other: IntervalElem<T>) -> IntervalElem<T> {
        if self.precedes(other) {
            other
        } else {
            self
        }
    }

    /// The sum of two bounds: an infinite operand absorbs the other, minus
    /// infinity first; two elements add, and a sum that does not fit in `T`
    /// has no value.
    pub open spec fn spec_checked_add(self, rhs: IntervalElem<T>) -> Option<IntervalElem<T>> {
        match (self, rhs) {
            (IntervalElem::NegInf, _) => Some(IntervalElem::NegInf),
            (_, IntervalElem::NegInf) => Some(IntervalElem::NegInf),
            (IntervalElem::Inf, _) => Some(IntervalElem::Inf),
            (_, IntervalElem::Inf) => Some(IntervalElem::Inf),
            (IntervalElem::Elem(a), IntervalElem::Elem(b)) => {
                if T::min_value() <= a.value() + b.value() <= T::max_value() {
                    Some(IntervalElem::Elem(T::from_int(a.value() + b.value())))
                } else {
                    None
                }
            },
        }
    }

    /// A lower bound that admits the integer `x`.
    pub open spec fn admits_above(self, x: int) -> bool {
        match self {
            IntervalElem::NegInf => true,
            IntervalElem::Elem(a) => a.value() <= x,
            IntervalElem::Inf => false,
        }
    }

    /// An upper bound that admits the integer `x`.
    pub open spec fn admits_below(self, x: int) -> bool {
        match self {
            IntervalElem::NegInf => false,
            IntervalElem::Elem(a) => x <= a.value(),
            IntervalElem::Inf => true,
        }
    }

    pub proof fn lemma_order(a: IntervalElem<T>, b: IntervalElem<T>)
        ensures
            a.precedes(b) || b.precedes(a) || a == b,
            !(a.precedes(b) && b.precedes(a)),
            !a.precedes(a),
    {
        match (a, b) {
            (IntervalElem::Elem(x), IntervalElem::Elem(y)) => {
                T::lemma_value_injective(x, y);
            },
            _ => {},
        }
    }

    /// Whether `self` comes strictly before `other`.
    pub fn before(&self, other: &Self) -> (r: bool)
        ensures
            r == self.precedes(*other),
    {
        match (self, other) {
            (IntervalElem::NegInf, IntervalElem::NegInf) => false,
            (IntervalElem::NegInf, _) => true,
            (_, IntervalElem::NegInf) => false,
            (IntervalElem::Inf, _) => false,
            (IntervalElem::Elem(_), IntervalElem::Inf) => true,
            (IntervalElem::Elem(a), IntervalElem::Elem(b)) => a.below(b),
        }
    }

    /// Three-way comparison in the order `NegInf < Elem(x) < Inf`.
    pub fn cmp(&self, other: &Self) -> (r: Ordering)
        ensures
            (r == Ordering::Less) == self.precedes(*other),
            (r == Ordering::Greater) == other.precedes(*self),
            (r == Ordering::Equal) == (*self == *other),
    {
        proof {
            IntervalElem::lemma_order(*self, *other);
        }
        if self.before(other) {
            Ordering::Less
        } else if other.before(self) {
            Ordering::Greater
        } else {
            Ordering::Equal
        }
    }

    /// Adds two bounds; `None` where two elements overflow `T`.
    pub fn checked_add(&self, rhs: &Self) -> (r: Option<Self>)
        ensures
            r == self.spec_checked_add(*rhs),
    {
        match (self, rhs) {
            (IntervalElem::NegInf, _) | (_, IntervalElem::NegInf) => Some(IntervalElem::NegInf),
            (IntervalElem::Inf, _) | (_, IntervalElem::Inf) => Some(IntervalElem::Inf),
            (IntervalElem::Elem(l), IntervalElem::Elem(r)) => match l.checked_sum(r) {
                Some(s) => Some(IntervalElem::Elem(s)),
                None => None,
            },
        }
    }
}

impl<T: Scalar> Interval<T> {
    /// The bounds are in order. Callers are expected to build only such
    /// intervals; every operation keeps them so.
    pub open spec fn wf(self) -> bool {
        self.lower.at_most(self.upper)
    }

    /// The interval holds the integer `x`.
    pub open spec fn contains(self, x: int) -> bool {
        self.lower.admits_above(x) && self.upper.admits_below(x)
    }

    /// `self` includes `other`: the lattice order, by bounds.
    pub open spec fn includes(self, other: Interval<T>) -> bool {
        self.lower.at_most(other.lower) && other.upper.at_most(self.upper)
    }

    pub open spec fn spec_top() -> Interval<T> {
        Interval { lower: IntervalElem::NegInf, upper: IntervalElem::Inf }
    }

    pub open spec fn point(v: T) -> Interval<T> {
        Interval { lower: IntervalElem::Elem(v), upper: IntervalElem::Elem(v) }
    }

    pub open spec fn spec_join(self, other: Interval<T>) -> Interval<T> {
        Interval { lower: self.lower.spec_min(other.lower), upper: self.upper.spec_max(other.upper) }
    }

    /// A bound that moves outward jumps to infinity; otherwise it stays.
    pub open spec fn spec_widen(self, other: Interval<T>) -> Interval<T> {
        Interval {
            lower: if other.lower.precedes(self.lower) {
                IntervalElem::NegInf
            } else {
                self.lower
            },
            upper: if self.upper.precedes(other.upper) {
                IntervalElem::Inf
            } else {
                self.upper
            },
        }
    }

    /// Disjoint intervals are never equal; the same single element always
    /// is; anything else may be either.
    pub open spec fn spec_equals(self, other: Interval<T>) -> AbstractBool {
        if self.upper.precedes(other.lower) || other.upper.precedes(self.lower) {
            AbstractBool::False
        } else if self.lower == self.upper && other.lower == other.upper && self.lower
            == other.lower && self.lower is Elem {
            AbstractBool::True
        } else {
            AbstractBool::Top
        }
    }

    pub open spec fn spec_less_than(self, other: Interval<T>) -> AbstractBool {
        if self.upper.precedes(other.lower) {
            AbstractBool::True
        } else if other.upper.at_most(self.lower) {
            AbstractBool::False
        } else {
            AbstractBool::Top
        }
    }

    /// Bounds add with infinities absorbing; a finite bound whose sum
    /// overflows `T` becomes unbounded on its own side.
    pub open spec fn spec_add(self, rhs: Interval<T>) -> Interval<T> {
        Interval {
            lower: match self.lower.spec_checked_add(rhs.lower) {
                Some(e) => e,
                None => IntervalElem::NegInf,
            },
            upper: match self.upper.spec_checked_add(rhs.upper) {
                Some(e) => e,
                None => IntervalElem::Inf,
            },
        }
    }

    pub fn from_interval(concrete_lower: T, concrete_upper: T) -> (r: Self)
        ensures
            r == (Interval { lower: IntervalElem::Elem(concrete_lower), upper: IntervalElem::Elem(concrete_upper) }),
    {
        Interval { lower: IntervalElem::Elem(concrete_lower), upper: IntervalElem::Elem(concrete_upper) }
    }

    /// Abstract equality.
    pub fn equals(&self, other: &Self) -> (r: AbstractBool)
        ensures
            r == self.spec_equals(*other),
    {
        if self.upper.before(&other.lower) || other.upper.before(&self.lower) {
            AbstractBool::False
        } else if matches!(self.lower, IntervalElem::Elem(_)) && matches!(self.lower.cmp(&self.upper), Ordering::Equal)
            && matches!(other.lower.cmp(&other.upper), Ordering::Equal) && matches!(self.lower.cmp(&other.lower), Ordering::Equal) {
            AbstractBool::True
        } else {
            AbstractBool::Top
        }
    }

    /// Abstract strict order.
    pub fn less_than(&self, other: &Self) -> (r: AbstractBool)
        ensures
            r == self.spec_less_than(*other),
    {
        if self.upper.before(&other.lower) {
            AbstractBool::True
        } else if !self.lower.before(&other.upper) {
            AbstractBool::False
        } else {
            AbstractBool::Top
        }
    }

    /// Interval addition.
    pub fn add(self, rhs: Self) -> (r: Self)
        ensures
            r == self.spec_add(rhs),
    {
        let lower = match self.lower.checked_add(&rhs.lower) {
            Some(e) => e,
            None => IntervalElem::NegInf,
        };
        let upper = match self.upper.checked_add(&rhs.upper) {
            Some(e) => e,
            None => IntervalElem::Inf,
        };
        Interval { lower, upper }
    }
}

impl<T: Scalar> AbstractDomain for Interval<T> {
    open spec fn compatible(&self, other: &Self) -> bool {
        true
    }

    /// The smallest interval that holds both.
    fn join(&self, other: &Self) -> (r: Self)
        ensures
            r == self.spec_join(*other),
    {
        let lower = if other.lower.before(&self.lower) {
            other.lower
        } else {
            self.lower
        };
        let upper = if self.upper.before(&other.upper) {
            other.upper
        } else {
            self.upper
        };
        Interval { lower, upper }
    }

    fn widen(&self, other: &Self) -> (r: Self)
        ensures
            r == self.spec_widen(*other),
    {
        Interval {
            lower: if other.lower.before(&self.lower) {
                IntervalElem::NegInf
            } else {
                self.lower
            },
            upper: if self.upper.before(&other.upper) {
                IntervalElem::Inf
            } else {
                self.upper
            },
        }
    }

    fn top(&self) -> (r: Self)
        ensures
            r == Interval::<T>::spec_top(),
    {
        Interval { lower: IntervalElem::NegInf, upper: IntervalElem::Inf }
    }
}

/// The join is the least upper bound of its operands in the inclusion
/// order, and is commutative, associative and idempotent.
pub proof fn lemma_join_least_upper_bound<T: Scalar>(a: Interval<T>, b: Interval<T>, c: Interval<T>)
    ensures
        a.spec_join(b).includes(a),
        a.spec_join(b).includes(b),
        c.includes(a) && c.includes(b) ==> c.includes(a.spec_join(b)),
        a.spec_join(b) == b.spec_join(a),
        a.spec_join(b).spec_join(c) == a.spec_join(b.spec_join(c)),
        a.spec_join(a) == a,
{
    IntervalElem::lemma_order(a.lower, b.lower);
    IntervalElem::lemma_order(a.upper, b.upper);
    IntervalElem::lemma_order(a.lower, c.lower);
    IntervalElem::lemma_order(a.upper, c.upper);
    IntervalElem::lemma_order(b.lower, c.lower);
    IntervalElem::lemma_order(b.upper, c.upper);
}

/// Widening gives an upper bound of both operands, and it either leaves the
/// first operand unchanged or sends at least one more of its bounds to
/// infinity.
pub proof fn lemma_widen_upper_bound<T: Scalar>(a: Interval<T>, b: Interval<T>)
    ensures
        a.spec_widen(b).includes(a),
        a.spec_widen(b).includes(b),
        a.spec_widen(b) == a || infinite_bounds(a.spec_widen(b)) > infinite_bounds(a),
{
    IntervalElem::lemma_order(a.lower, b.lower);
    IntervalElem::lemma_order(a.upper, b.upper);
}

/// How many bounds of the interval are infinite on their own side.
pub open spec fn infinite_bounds<T: Scalar>(i: Interval<T>) -> nat {
    (if i.lower is NegInf { 1nat } else { 0nat }) + (if i.upper is Inf { 1nat } else { 0nat })
}

/// The sequence obtained by widening the first interval with each following
/// one in turn: `w[0] = s[0]` and `w[k + 1] = w[k].widen(s[k + 1])`.
pub open spec fn widen_chain<T: Scalar>(s: Seq<Interval<T>>) -> Seq<Interval<T>>
    decreases s.len(),
{
    if s.len() <= 1 {
        s
    } else {
        let w = widen_chain(s.drop_last());
        w.push(w.last().spec_widen(s.last()))
    }
}

/// How many times consecutive entries of the sequence differ.
pub open spec fn changes<T: Scalar>(w: Seq<Interval<T>>) -> nat
    decreases w.len(),
{
    if w.len() <= 1 {
        0
    } else {
        changes(w.drop_last()) + (if w.last() == w[w.len() - 2] { 0nat } else { 1nat })
    }
}

proof fn lemma_widen_chain_changes<T: Scalar>(s: Seq<Interval<T>>)
    requires
        s.len() >= 1,
    ensures
        widen_chain(s).len() == s.len(),
        widen_chain(s)[0] == s[0],
        changes(widen_chain(s)) + infinite_bounds(s[0]) <= infinite_bounds(widen_chain(s).last()),
    decreases s.len(),
{
    if s.len() > 1 {
        let p = s.drop_last();
        lemma_widen_chain_changes(p);
        let w = widen_chain(p);
        lemma_widen_upper_bound(w.last(), s.last());
        let v = widen_chain(s);
        assert(v.drop_last() =~= w);
    }
}

/// Widening along any sequence of intervals changes the running result at
/// most twice, once per bound, so iterated widening reaches a fixed point
/// after at most two changes.
pub proof fn lemma_widen_converges<T: Scalar>(s: Seq<Interval<T>>)
    ensures
        changes(widen_chain(s)) <= 2,
{
    if s.len() >= 1 {
        lemma_widen_chain_changes(s);
    }
}

/// Once the second interval reaches past the first on both sides, widening
/// gives the top interval, and widening top with anything keeps it.
pub proof fn lemma_widen_reaches_top<T: Scalar>(a: Interval<T>, b: Interval<T>, c: Interval<T>)
    ensures
        b.lower.precedes(a.lower) && a.upper.precedes(b.upper) ==> a.spec_widen(b) == Interval::<T>::spec_top(),
        Interval::<T>::spec_top().spec_widen(c) == Interval::<T>::spec_top(),
{
}

/// Addition is sound: the sum of two integers held by the operands is held
/// by the sum interval. It also keeps intervals well formed.
pub proof fn lemma_add_sound<T: Scalar>(a: Interval<T>, b: Interval<T>, x: int, y: int)
    ensures
        a.contains(x) && b.contains(y) ==> a.spec_add(b).contains(x + y),
        a.wf() && b.wf() ==> a.spec_add(b).wf(),
{
    match (a.lower, b.lower) {
        (IntervalElem::Elem(p), IntervalElem::Elem(q)) => {
            if T::min_value() <= p.value() + q.value() <= T::max_value() {
                T::lemma_from_int(p.value() + q.value());
            }
        },
        _ => {},
    }
    match (a.upper, b.upper) {
        (IntervalElem::Elem(p), IntervalElem::Elem(q)) => {
            if T::min_value() <= p.value() + q.value() <= T::max_value() {
                T::lemma_from_int(p.value() + q.value());
            }
        },
        _ => {},
    }
}

/// Join and widen keep intervals well formed.
pub proof fn lemma_join_widen_wf<T: Scalar>(a: Interval<T>, b: Interval<T>)
    requires
        a.wf(),
        b.wf(),
    ensures
        a.spec_join(b).wf(),
        a.spec_widen(b).wf(),
        Interval::<T>::spec_top().wf(),
{
    IntervalElem::lemma_order(a.lower, b.lower);
    IntervalElem::lemma_order(a.upper, b.upper);
}

/// Abstract equality and strict order are sound: a definite answer holds of
/// every pair of integers that the operands hold.
pub proof fn lemma_compare_sound<T: Scalar>(a: Interval<T>, b: Interval<T>, x: int, y: int)
    requires
        a.contains(x),
        b.contains(y),
    ensures
        a.spec_equals(b) == AbstractBool::True ==> x == y,
        a.spec_equals(b) == AbstractBool::False ==> x != y,
        a.spec_less_than(b) == AbstractBool::True ==> x < y,
        a.spec_less_than(b) == AbstractBool::False ==> x >= y,
{
}

/// The top interval compares as `Top` with any interval that has a finite
/// bound on the side facing it.
pub proof fn lemma_less_than_top<T: Scalar>(a: Interval<T>)
    ensures
        !(a.upper is NegInf) ==> Interval::<T>::spec_top().spec_less_than(a) == AbstractBool::Top,
        !(a.lower is Inf) ==> a.spec_less_than(Interval::<T>::spec_top()) == AbstractBool::Top,
{
}

impl<T: Scalar> From<T> for Interval<T> {
    /// The interval that holds exactly `concrete`.
    fn from(concrete: T) -> (r: Self) {
        Interval { lower: IntervalElem::Elem(concrete), upper: IntervalElem::Elem(concrete) }
    }
}

impl<T: Scalar> vstd::std_specs::convert::FromSpecImpl<T> for Interval<T> {
    open spec fn obeys_from_spec() -> bool {
        true
    }

    open spec fn from_spec(v: T) -> Interval<T> {
        Interval::point(v)
    }
}

} // verus!
