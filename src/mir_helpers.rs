use vstd::prelude::*;

use crate::mir::{Body, Ty};

verus! {

/// The declared argument types of a function, in order, and its return
/// type. The first local is the return local and the arguments follow it.
pub fn get_fn_types(function: &Body) -> (r: (Vec<&Ty>, &Ty))
    requires
        function.wf(),
    ensures
        r.0@.len() == function.arg_count,
        forall|i: int| 0 <= i < function.arg_count ==> *#[trigger] r.0@[i] == function.locals@[i + 1].ty,
        *r.1 == function.locals@[0].ty,
{
    let return_type = &function.ret_local().ty;
    let mut arg_types: Vec<&Ty> = Vec::new();
    let mut i: usize = 0;
    while i < function.arg_count
        invariant
            function.wf(),
            i <= function.arg_count,
            arg_types@.len() == i,
            forall|j: int| 0 <= j < i ==> *#[trigger] arg_types@[j] == function.locals@[j + 1].ty,
        decreases function.arg_count - i,
    {
        arg_types.push(&function.locals[i + 1].ty);
        i = i + 1;
    }
    (arg_types, return_type)
}

} // verus!
