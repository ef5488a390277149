use vstd::prelude::*;

use crate::domains::domain::AbstractDomain;
use crate::mir::{Const, ConstantKind};
use core::cmp::Ordering;

verus! {

/// The four-point boolean lattice:
///
/// ```text
///          Top
///       /      \
///    False    True
///       \     /
///         Bot
/// ```
#[derive(PartialEq, Eq, Structural, Copy, Clone, Debug)]
pub enum AbstractBool {
    /// Both true and false.
    Top,
    True,
    False,
    /// Neither true nor false.
    Bot,
}

impl AbstractBool {
    /// The lattice order: `Bot` is below everything, `Top` above
    /// everything, and `True` and `False` are incomparable.
    pub open spec fn lattice_le(self, other: AbstractBool) -> bool {
        self == other || self is Bot || other is Top
    }

    pub open spec fn spec_join(self, other: AbstractBool) -> AbstractBool {
        if self.lattice_le(other) {
            other
        } else if other.lattice_le(self) {
            self
        } else {
            AbstractBool::Top
        }
    }

    pub open spec fn spec_widen(self, other: AbstractBool) -> AbstractBool {
        match (self, other) {
            (AbstractBool::Top, _) => AbstractBool::Top,
            (_, AbstractBool::Top) => AbstractBool::Top,
            (AbstractBool::Bot, _) => other,
            (_, AbstractBool::Bot) => self,
            _ => if self == other {
                self
            } else {
                AbstractBool::Top
            },
        }
    }

    /// Abstract equality: `Top` propagates first, then `Bot`; two definite
    /// values compare as booleans do.
    pub open spec fn spec_equals(self, other: AbstractBool) -> AbstractBool {
        if self is Top || other is Top {
            AbstractBool::Top
        } else if self is Bot || other is Bot {
            AbstractBool::Bot
        } else if self == other {
            AbstractBool::True
        } else {
            AbstractBool::False
        }
    }

    pub open spec fn from_bool(b: bool) -> AbstractBool {
        if b {
            AbstractBool::True
        } else {
            AbstractBool::False
        }
    }

    /// A boolean constant is encoded as one resolved byte.
    pub open spec fn is_bool_constant(c: Const) -> bool {
        &&& c.ty is Bool
        &&& c.kind matches ConstantKind::Allocated(alloc)
        &&& alloc.bytes@.len() == 1
        &&& alloc.bytes@[0] is Some
    }

    /// The value of a boolean constant: zero is false, anything else true.
    pub open spec fn spec_from_const(c: Const) -> AbstractBool
        recommends
            AbstractBool::is_bool_constant(c),
    {
        match c.kind {
            ConstantKind::Allocated(alloc) => if alloc.bytes@[0] == Some(0u8) {
                AbstractBool::False
            } else {
                AbstractBool::True
            },
            _ => AbstractBool::Top,
        }
    }

    /// Decodes a boolean constant. A constant of another type, or one that is
    /// not a single resolved byte, is a caller error and is excluded.
    pub fn from_const(constant: &Const) -> (r: AbstractBool)
        requires
            AbstractBool::is_bool_constant(*constant),
        ensures
            r == AbstractBool::spec_from_const(*constant),
    {
        match &constant.kind {
            ConstantKind::Allocated(alloc) => match alloc.bytes[0] {
                Some(0u8) => AbstractBool::False,
                _ => AbstractBool::True,
            },
            _ => AbstractBool::Top,
        }
    }

    /// Abstract boolean equality.
    pub fn equals(&self, other: &Self) -> (r: AbstractBool)
        ensures
            r == self.spec_equals(*other),
    {
        match (self, other) {
            (AbstractBool::Top, _) | (_, AbstractBool::Top) => AbstractBool::Top,
            (AbstractBool::Bot, _) | (_, AbstractBool::Bot) => AbstractBool::Bot,
            (a, b) => {
                if a == b {
                    AbstractBool::True
                } else {
                    AbstractBool::False
                }
            },
        }
    }
}

/// Joining a value with itself gives it back, and joining with `Top` gives
/// `Top`.
pub proof fn lemma_join_idempotent_absorbing(b: AbstractBool)
    ensures
        b.spec_join(b) == b,
        b.spec_join(AbstractBool::Top) == AbstractBool::Top,
        AbstractBool::Top.spec_join(b) == AbstractBool::Top,
{
}

/// The join is the least upper bound of its operands in the lattice order,
/// and is commutative and associative.
pub proof fn lemma_join_least_upper_bound(a: AbstractBool, b: AbstractBool, c: AbstractBool)
    ensures
        a.lattice_le(a.spec_join(b)),
        b.lattice_le(a.spec_join(b)),
        a.lattice_le(c) && b.lattice_le(c) ==> a.spec_join(b).lattice_le(c),
        a.spec_join(b) == b.spec_join(a),
        a.spec_join(b).spec_join(c) == a.spec_join(b.spec_join(c)),
{
}

/// On this finite lattice widening is the join.
pub proof fn lemma_widen_is_join(a: AbstractBool, b: AbstractBool)
    ensures
        a.spec_widen(b) == a.spec_join(b),
{
}

/// `Top` on either side gives `Top`; otherwise `Bot` on either side gives
/// `Bot`; two definite values give whether they are the same.
pub proof fn lemma_equals_cases(b: AbstractBool)
    ensures
        AbstractBool::Top.spec_equals(b) == AbstractBool::Top,
        !(b is Top) ==> AbstractBool::Bot.spec_equals(b) == AbstractBool::Bot,
        AbstractBool::True.spec_equals(AbstractBool::True) == AbstractBool::True,
        AbstractBool::True.spec_equals(AbstractBool::False) == AbstractBool::False,
{
}

/// Abstract equality is symmetric and agrees with boolean equality on
/// definite values.
pub proof fn lemma_equals_definite(x: bool, y: bool, a: AbstractBool, b: AbstractBool)
    ensures
        AbstractBool::from_bool(x).spec_equals(AbstractBool::from_bool(y)) == AbstractBool::from_bool(x == y),
        a.spec_equals(b) == b.spec_equals(a),
{
}

impl PartialOrd for AbstractBool {
    fn partial_cmp(&self, other: &Self) -> (r: Option<Ordering>) {
        match (self, other) {
            (AbstractBool::Top, AbstractBool::Top) => Some(Ordering::Equal),
            (AbstractBool::Top, _) => Some(Ordering::Greater),
            (_, AbstractBool::Top) => Some(Ordering::Less),
            (AbstractBool::Bot, AbstractBool::Bot) => Some(Ordering::Equal),
            (AbstractBool::Bot, _) => Some(Ordering::Less),
            (_, AbstractBool::Bot) => Some(Ordering::Greater),
            (a, b) => {
                if a == b {
                    Some(Ordering::Equal)
                } else {
                    None
                }
            },
        }
    }
}

impl vstd::std_specs::cmp::PartialOrdSpecImpl for AbstractBool {
    open spec fn obeys_partial_cmp_spec() -> bool {
        true
    }

    open spec fn partial_cmp_spec(&self, other: &AbstractBool) -> Option<Ordering> {
        if *self == *other {
            Some(Ordering::Equal)
        } else if self.lattice_le(*other) {
            Some(Ordering::Less)
        } else if other.lattice_le(*self) {
            Some(Ordering::Greater)
        } else {
            None
        }
    }
}

impl AbstractDomain for AbstractBool {
    open spec fn compatible(&self, other: &Self) -> bool {
        true
    }

    fn join(&self, other: &Self) -> (r: Self)
        ensures
            r == self.spec_join(*other),
    {
        match self.partial_cmp(other) {
            None => AbstractBool::Top,
            Some(Ordering::Equal) => *self,
            Some(Ordering::Less) => *other,
            Some(Ordering::Greater) => *self,
        }
    }

    fn widen(&self, other: &Self) -> (r: Self)
        ensures
            r == self.spec_widen(*other),
    {
        match (self, other) {
            (AbstractBool::Top, _) => AbstractBool::Top,
            (_, AbstractBool::Top) => AbstractBool::Top,
            (AbstractBool::Bot, _) => *other,
            (_, AbstractBool::Bot) => *self,
            (a, b) => {
                if a == b {
                    *a
                } else {
                    AbstractBool::Top
                }
            },
        }
    }

    fn top(&self) -> (r: Self)
        ensures
            r == AbstractBool::Top,
    {
        AbstractBool::Top
    }
}

impl From<bool> for AbstractBool {
    fn from(concrete: bool) -> (r: Self) {
        if concrete {
            AbstractBool::True
        } else {
            AbstractBool::False
        }
    }
}

impl vstd::std_specs::convert::FromSpecImpl<bool> for AbstractBool {
    open spec fn obeys_from_spec() -> bool {
        true
    }

    open spec fn from_spec(v: bool) -> AbstractBool {
        AbstractBool::from_bool(v)
    }
}

} // verus!
