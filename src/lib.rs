//! Abstract interpretation over a function's control-flow graph: a boolean
//! lattice, an interval lattice, a composite value domain, and an interpreter
//! that evaluates a function body's statements on abstract values.

pub mod domains;
pub mod errors;
pub mod interpreter;
pub mod mir;
pub mod mir_helpers;

pub use domains::booleans::AbstractBool;
pub use domains::domain::AbstractDomain;
pub use domains::function::AbstractFunction;
pub use domains::interval::{Interval, IntervalElem, Scalar};
pub use domains::value::{AbstractValue, ValueView};
pub use errors::{Error, ErrorKind};
pub use interpreter::{analyze_function, can_interpret, interpret_body, interpret_intervals};
pub use mir_helpers::get_fn_types;
