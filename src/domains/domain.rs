use vstd::prelude::*;

verus! {

/// A lattice of abstract values.
///
/// `join` is the least upper bound of two elements, `widen` an upper bound
/// that stabilises when applied along an increasing chain, and `top` the
/// greatest element of the lattice that `self` belongs to. Each
/// implementation states the exact result of each operation.
pub trait AbstractDomain: Sized {
    /// The two operands belong to the same lattice, so that `join` and
    /// `widen` are defined on them.
    spec fn compatible(&self, other: &Self) -> bool;

    fn join(&self, other: &Self) -> Self
        requires
            self.compatible(other),
    ;

    fn widen(&self, other: &Self) -> Self
        requires
            self.compatible(other),
    ;

    /// The top element of the lattice.
    fn top(&self) -> Self;
}

} // verus!
