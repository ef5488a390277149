use vstd::prelude::*;

use crate::domains::value::AbstractValue;

verus! {

/// A summary of a function: an abstract value for each argument and one for
/// the return value.
#[derive(Debug)]
pub struct AbstractFunction {
    pub arguments: Vec<AbstractValue>,
    pub return_val: AbstractValue,
}

} // verus!
