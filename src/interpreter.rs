//! Evaluates a function body's statements on abstract values, and builds a
//! function's summary from its declared types.
use vstd::prelude::*;

use crate::domains::booleans::AbstractBool;
use crate::domains::function::AbstractFunction;
use crate::domains::value::{top_of_ty, AbstractValue, ValueView};
use crate::errors::{Error, ErrorKind};
use crate::mir::{BasicBlock, BinOp, Body, Local, LocalDecl, Operand, Place, Rvalue, Statement, StatementKind, Ty};
use crate::mir_helpers::get_fn_types;
use std::collections::HashMap;

verus! {

broadcast use vstd::std_specs::hash::group_hash_axioms;

// ---------------------------------------------------------------------------
// The model: abstract evaluation over a map from locals to value models.
// ---------------------------------------------------------------------------

/// The model of an abstract program state.
pub open spec fn state_view(m: Map<Local, AbstractValue>) -> Map<Local, ValueView> {
    m.map_values(|v: AbstractValue| v.view())
}

pub open spec fn views(vs: Seq<AbstractValue>) -> Seq<ValueView> {
    vs.map_values(|v: AbstractValue| v.view())
}

/// The state before the first statement: argument `i` (from zero) at local
/// `i + 1`.
pub open spec fn initial_state(args: Seq<ValueView>) -> Map<Local, ValueView> {
    Map::new(|k: Local| 1 <= k <= args.len(), |k: Local| args[k - 1])
}

pub open spec fn eval_operand(op: Operand, st: Map<Local, ValueView>) -> Result<ValueView, ErrorKind> {
    match op {
        Operand::Copy(p) => eval_place(p, st),
        Operand::Move(p) => eval_place(p, st),
        Operand::Constant(c) => if c.literal.ty is Bool {
            Ok(ValueView::Bool(AbstractBool::spec_from_const(c.literal)))
        } else {
            Err(ErrorKind::NotImplementedError)
        },
    }
}

/// Reading a place reads its local; a local with no value is an error.
pub open spec fn eval_place(p: Place, st: Map<Local, ValueView>) -> Result<ValueView, ErrorKind> {
    if st.contains_key(p.local) {
        Ok(st[p.local])
    } else {
        Err(ErrorKind::InterpreterError)
    }
}

/// Addition on intervals of the same signedness; equality on booleans and
/// on intervals of the same signedness; strict order on intervals of the
/// same signedness. Anything else is not covered.
pub open spec fn eval_binop(op: BinOp, l: ValueView, r: ValueView) -> Result<ValueView, ErrorKind> {
    match op {
        BinOp::Add => match (l, r) {
            (ValueView::IntInterval(a), ValueView::IntInterval(b)) => Ok(ValueView::IntInterval(a.spec_add(b))),
            (ValueView::UintInterval(a), ValueView::UintInterval(b)) => Ok(ValueView::UintInterval(a.spec_add(b))),
            _ => Err(ErrorKind::NotImplementedError),
        },
        BinOp::Eq => match (l, r) {
            (ValueView::Bool(a), ValueView::Bool(b)) => Ok(ValueView::Bool(a.spec_equals(b))),
            (ValueView::IntInterval(a), ValueView::IntInterval(b)) => Ok(ValueView::Bool(a.spec_equals(b))),
            (ValueView::UintInterval(a), ValueView::UintInterval(b)) => Ok(ValueView::Bool(a.spec_equals(b))),
            _ => Err(ErrorKind::NotImplementedError),
        },
        BinOp::Lt => match (l, r) {
            (ValueView::IntInterval(a), ValueView::IntInterval(b)) => Ok(ValueView::Bool(a.spec_less_than(b))),
            (ValueView::UintInterval(a), ValueView::UintInterval(b)) => Ok(ValueView::Bool(a.spec_less_than(b))),
            _ => Err(ErrorKind::NotImplementedError),
        },
        _ => Err(ErrorKind::NotImplementedError),
    }
}

/// Both operands are read, left first, before the operator is applied.
pub open spec fn eval_binary(op: BinOp, left: Operand, right: Operand, st: Map<Local, ValueView>) -> Result<ValueView, ErrorKind> {
    match eval_operand(left, st) {
        Err(e) => Err(e),
        Ok(l) => match eval_operand(right, st) {
            Err(e) => Err(e),
            Ok(r) => eval_binop(op, l, r),
        },
    }
}

/// A checked operation pairs the result with an overflow flag that is
/// always `False`.
pub open spec fn eval_rvalue(rv: Rvalue, st: Map<Local, ValueView>) -> Result<ValueView, ErrorKind> {
    match rv {
        Rvalue::Use(op) => eval_operand(op, st),
        Rvalue::BinaryOp(op, l, r) => eval_binary(op, l, r, st),
        Rvalue::CheckedBinaryOp(op, l, r) => match eval_binary(op, l, r, st) {
            Ok(v) => Ok(ValueView::Tuple(seq![v, ValueView::Bool(AbstractBool::False)])),
            Err(e) => Err(e),
        },
        _ => Err(ErrorKind::NotImplementedError),
    }
}

/// An assignment stores the value of its right-hand side at the local of
/// its place; a deinitialisation stores `Uninit` there.
pub open spec fn exec_statement(s: Statement, st: Map<Local, ValueView>) -> Result<Map<Local, ValueView>, ErrorKind> {
    match s.kind {
        StatementKind::Assign(place, rv) => match eval_rvalue(rv, st) {
            Ok(v) => Ok(st.insert(place.local, v)),
            Err(e) => Err(e),
        },
        StatementKind::Deinit(place) => Ok(st.insert(place.local, ValueView::Uninit)),
        _ => Err(ErrorKind::NotImplementedError),
    }
}

/// Runs statements in order up to the first failure: the state reached, and
/// the failure if there was one.
pub open spec fn exec_statements(stmts: Seq<Statement>, st: Map<Local, ValueView>) -> (Map<Local, ValueView>, Option<ErrorKind>)
    decreases stmts.len(),
{
    if stmts.len() == 0 {
        (st, None)
    } else {
        match exec_statement(stmts[0], st) {
            Ok(next) => exec_statements(stmts.skip(1), next),
            Err(e) => (st, Some(e)),
        }
    }
}

/// Runs each block once, in declaration order. A block that fails keeps
/// what its earlier statements did, and the next block runs on.
pub open spec fn exec_blocks(blocks: Seq<BasicBlock>, st: Map<Local, ValueView>) -> Map<Local, ValueView>
    decreases blocks.len(),
{
    if blocks.len() == 0 {
        st
    } else {
        exec_blocks(blocks.skip(1), exec_statements(blocks[0].statements@, st).0)
    }
}

/// Every boolean constant that an operand holds is one resolved byte.
pub open spec fn operand_ok(op: Operand) -> bool {
    match op {
        Operand::Constant(c) => c.literal.ty is Bool ==> AbstractBool::is_bool_constant(c.literal),
        _ => true,
    }
}

pub open spec fn rvalue_ok(rv: Rvalue) -> bool {
    match rv {
        Rvalue::Use(op) => operand_ok(op),
        Rvalue::BinaryOp(_, l, r) => operand_ok(l) && operand_ok(r),
        Rvalue::CheckedBinaryOp(_, l, r) => operand_ok(l) && operand_ok(r),
        _ => true,
    }
}

pub open spec fn statement_ok(s: Statement) -> bool {
    match s.kind {
        StatementKind::Assign(_, rv) => rvalue_ok(rv),
        _ => true,
    }
}

pub open spec fn statements_ok(stmts: Seq<Statement>) -> bool {
    forall|i: int| 0 <= i < stmts.len() ==> #[trigger] statement_ok(stmts[i])
}

/// The boolean constants of the body are well formed.
pub open spec fn body_constants_ok(body: Body) -> bool {
    forall|b: int| 0 <= b < body.blocks@.len() ==> #[trigger] statements_ok(body.blocks@[b].statements@)
}

// ---------------------------------------------------------------------------
// The interpreter.
// ---------------------------------------------------------------------------

/// A copy of the value held at the place's local, if it holds one.
fn get_place_value(place: &Place, state: &HashMap<Local, AbstractValue>) -> (r: Result<Option<AbstractValue>, Error>)
    ensures
        r matches Ok(o) && match o {
            Some(v) => state@.contains_key(place.local) && v.view() == state@[place.local].view(),
            None => !state@.contains_key(place.local),
        },
{
    match state.get(&place.local) {
        Some(v) => Ok(Some(v.duplicate())),
        None => Ok(None),
    }
}

fn interpret_operand(op: &Operand, state: &HashMap<Local, AbstractValue>) -> (r: Result<AbstractValue, Error>)
    requires
        operand_ok(*op),
    ensures
        match r {
            Ok(v) => eval_operand(*op, state_view(state@)) == Ok::<ValueView, ErrorKind>(v.view()),
            Err(e) => eval_operand(*op, state_view(state@)) == Err::<ValueView, ErrorKind>(e.kind),
        },
{
    match op {
        Operand::Copy(place) | Operand::Move(place) => {
            let value = match get_place_value(place, state) {
                Ok(Some(v)) => v,
                Ok(None) => return Err(Error::new(ErrorKind::InterpreterError)),
                Err(e) => return Err(e),
            };
            Ok(value)
        },
        Operand::Constant(c) => match c.literal.ty {
            Ty::Bool => Ok(AbstractValue::Bool(AbstractBool::from_const(&c.literal))),
            _ => Err(Error::new(ErrorKind::NotImplementedError)),
        },
    }
}

fn interpret_binop(
    binop: &BinOp,
    left: &Operand,
    right: &Operand,
    state: &HashMap<Local, AbstractValue>,
) -> (r: Result<AbstractValue, Error>)
    requires
        operand_ok(*left),
        operand_ok(*right),
    ensures
        match r {
            Ok(v) => eval_binary(*binop, *left, *right, state_view(state@)) == Ok::<ValueView, ErrorKind>(v.view()),
            Err(e) => eval_binary(*binop, *left, *right, state_view(state@)) == Err::<ValueView, ErrorKind>(e.kind),
        },
{
    let left_val = match interpret_operand(left, state) {
        Ok(v) => v,
        Err(e) => return Err(e),
    };
    let right_val = match interpret_operand(right, state) {
        Ok(v) => v,
        Err(e) => return Err(e),
    };
    match binop {
        BinOp::Add => match (left_val, right_val) {
            (AbstractValue::IntInterval(l), AbstractValue::IntInterval(r)) => Ok(AbstractValue::IntInterval(l.add(r))),
            (AbstractValue::UintInterval(l), AbstractValue::UintInterval(r)) => Ok(AbstractValue::UintInterval(l.add(r))),
            _ => Err(Error::new(ErrorKind::NotImplementedError)),
        },
        BinOp::Eq => match (left_val, right_val) {
            (AbstractValue::Bool(l), AbstractValue::Bool(r)) => Ok(AbstractValue::Bool(l.equals(&r))),
            (AbstractValue::IntInterval(l), AbstractValue::IntInterval(r)) => Ok(AbstractValue::Bool(l.equals(&r))),
            (AbstractValue::UintInterval(l), AbstractValue::UintInterval(r)) => Ok(AbstractValue::Bool(l.equals(&r))),
            _ => Err(Error::new(ErrorKind::NotImplementedError)),
        },
        BinOp::Lt => match (left_val, right_val) {
            (AbstractValue::IntInterval(l), AbstractValue::IntInterval(r)) => Ok(AbstractValue::Bool(l.less_than(&r))),
            (AbstractValue::UintInterval(l), AbstractValue::UintInterval(r)) => Ok(AbstractValue::Bool(l.less_than(&r))),
            _ => Err(Error::new(ErrorKind::NotImplementedError)),
        },
        _ => Err(Error::new(ErrorKind::NotImplementedError)),
    }
}

fn interpret_rvalue(rvalue: &Rvalue, state: &HashMap<Local, AbstractValue>) -> (r: Result<AbstractValue, Error>)
    requires
        rvalue_ok(*rvalue),
    ensures
        match r {
            Ok(v) => eval_rvalue(*rvalue, state_view(state@)) == Ok::<ValueView, ErrorKind>(v.view()),
            Err(e) => eval_rvalue(*rvalue, state_view(state@)) == Err::<ValueView, ErrorKind>(e.kind),
        },
{
    match rvalue {
        Rvalue::Use(op) => interpret_operand(op, state),
        Rvalue::BinaryOp(op, left, right) => interpret_binop(op, left, right, state),
        Rvalue::CheckedBinaryOp(op, left, right) => {
            let v = match interpret_binop(op, left, right, state) {
                Ok(v) => v,
                Err(e) => return Err(e),
            };
            let pair = vec![v, AbstractValue::Bool(AbstractBool::False)];
            proof {
                AbstractValue::lemma_tuple_view(pair);
                assert(AbstractValue::Tuple(pair).view()->Tuple_0 =~= seq![v.view(), ValueView::Bool(AbstractBool::False)]);
            }
            Ok(AbstractValue::Tuple(pair))
        },
        _ => Err(Error::new(ErrorKind::NotImplementedError)),
    }
}

fn interpret_statement(statement: &Statement, state: &mut HashMap<Local, AbstractValue>) -> (r: Result<(), Error>)
    requires
        statement_ok(*statement),
    ensures
        match r {
            Ok(_) => exec_statement(*statement, state_view(old(state)@)) == Ok::<Map<Local, ValueView>, ErrorKind>(state_view(final(state)@)),
            Err(e) => exec_statement(*statement, state_view(old(state)@)) == Err::<Map<Local, ValueView>, ErrorKind>(e.kind)
                && final(state)@ == old(state)@,
        },
{
    match &statement.kind {
        StatementKind::Assign(place, rvalue) => {
            let val = match interpret_rvalue(rvalue, state) {
                Ok(v) => v,
                Err(e) => return Err(e),
            };
            proof {
                assert(state_view(state@.insert(place.local, val)) =~= state_view(state@).insert(place.local, val.view()));
            }
            state.insert(place.local, val);
            Ok(())
        },
        StatementKind::Deinit(place) => {
            proof {
                assert(state_view(state@.insert(place.local, AbstractValue::Uninit)) =~= state_view(state@).insert(place.local, ValueView::Uninit));
            }
            state.insert(place.local, AbstractValue::Uninit);
            Ok(())
        },
        _ => Err(Error::new(ErrorKind::NotImplementedError)),
    }
}

/// Runs a block's statements in order, stopping at the first failure.
fn interpret_block(block: &BasicBlock, state: &mut HashMap<Local, AbstractValue>) -> (r: Result<(), Error>)
    requires
        statements_ok(block.statements@),
    ensures
        exec_statements(block.statements@, state_view(old(state)@)) == (
            state_view(final(state)@),
            match r {
                Ok(_) => None::<ErrorKind>,
                Err(e) => Some(e.kind),
            },
        ),
{
    let ghost stmts = block.statements@;
    let ghost start = state_view(state@);
    let mut i: usize = 0;
    assert(stmts.skip(0) =~= stmts);
    let mut outcome: Result<(), Error> = Ok(());
    while i < block.statements.len()
        invariant_except_break
            stmts == block.statements@,
            statements_ok(stmts),
            i <= stmts.len(),
            exec_statements(stmts, start) == exec_statements(stmts.skip(i as int), state_view(state@)),
            outcome is Ok,
        ensures
            exec_statements(stmts, start) == (
                state_view(state@),
                match outcome {
                    Ok(_) => None::<ErrorKind>,
                    Err(e) => Some(e.kind),
                },
            ),
        decreases stmts.len() - i,
    {
        let ghost before = state_view(state@);
        proof {
            assert(stmts.skip(i as int)[0] == stmts[i as int]);
            assert(stmts.skip(i as int).skip(1) =~= stmts.skip(i + 1));
            assert(statement_ok(stmts[i as int]));
        }
        match interpret_statement(&block.statements[i], state) {
            Ok(_) => {
                assert(exec_statements(stmts.skip(i as int), before) == exec_statements(stmts.skip(i + 1), state_view(state@)));
            },
            Err(e) => {
                assert(exec_statements(stmts.skip(i as int), before) == (before, Some(e.kind)));
                outcome = Err(e);
                break;
            },
        }
        i = i + 1;
        proof {
            if i == stmts.len() {
                assert(stmts.skip(i as int).len() == 0);
            }
        }
    }
    outcome
}

/// Interprets a body on the given argument values: local `i + 1` starts
/// with argument `i`, then each block runs once in declaration order. A
/// failing statement ends its block, and the failure is not reported; the
/// state reached is returned. An argument list whose length is not the
/// declared argument count is an `InvalidArgumentError`.
pub fn interpret_body(body: &Body, arg_values: &Vec<AbstractValue>) -> (r: Result<HashMap<Local, AbstractValue>, Error>)
    requires
        body.wf(),
        body_constants_ok(*body),
    ensures
        arg_values@.len() != body.arg_count <==> r is Err,
        match r {
            Ok(m) => state_view(m@) == exec_blocks(body.blocks@, initial_state(views(arg_values@))),
            Err(e) => e.kind == ErrorKind::InvalidArgumentError,
        },
{
    let mut state: HashMap<Local, AbstractValue> = HashMap::new();
    let (arg_types, _return_type) = get_fn_types(body);
    if arg_values.len() != arg_types.len() {
        return Err(
            Error::with_message(
                ErrorKind::InvalidArgumentError,
                "Must supply same number of arguments as the function takes as input when interpreting it.".to_string(),
            ),
        );
    }
    let ghost args = views(arg_values@);
    let mut i: usize = 0;
    while i < arg_values.len()
        invariant
            args == views(arg_values@),
            i <= arg_values@.len(),
            state_view(state@) =~= Map::new(|k: Local| 1 <= k <= i, |k: Local| args[k - 1]),
        decreases arg_values@.len() - i,
    {
        let v = arg_values[i].duplicate();
        proof {
            assert(args[i as int] == v.view());
            assert(state_view(state@.insert((i + 1) as usize, v)) =~= state_view(state@).insert((i + 1) as usize, v.view()));
        }
        state.insert(i + 1, v);
        i = i + 1;
    }
    assert(state_view(state@) =~= initial_state(args));
    let ghost blocks = body.blocks@;
    let ghost start = state_view(state@);
    let mut b: usize = 0;
    assert(blocks.skip(0) =~= blocks);
    while b < body.blocks.len()
        invariant
            blocks == body.blocks@,
            body_constants_ok(*body),
            b <= blocks.len(),
            exec_blocks(blocks, start) == exec_blocks(blocks.skip(b as int), state_view(state@)),
        decreases blocks.len() - b,
    {
        proof {
            assert(blocks.skip(b as int)[0] == blocks[b as int]);
            assert(blocks.skip(b as int).skip(1) =~= blocks.skip(b + 1));
            assert(statements_ok(blocks[b as int].statements@));
        }
        // A failure ends only its own block.
        let _result = interpret_block(&body.blocks[b], &mut state);
        b = b + 1;
    }
    proof {
        assert(blocks.skip(b as int).len() == 0);
    }
    Ok(state)
}

/// Numeric (signed, unsigned or floating point) or boolean.
pub open spec fn spec_numeric_or_bool(ty: Ty) -> bool {
    ty is Bool || ty is Int || ty is Uint || ty is Float
}

/// A type the interpreter accepts for a local: numeric, boolean, or a tuple
/// of numeric or boolean fields.
pub open spec fn interpretable_ty(ty: Ty) -> bool {
    if ty is Tuple {
        forall|j: int| 0 <= j < ty->Tuple_0@.len() ==> #[trigger] spec_numeric_or_bool(ty->Tuple_0@[j])
    } else {
        spec_numeric_or_bool(ty)
    }
}

/// Every local has a type the interpreter accepts.
pub open spec fn spec_can_interpret(decls: Seq<LocalDecl>) -> bool {
    forall|i: int| 0 <= i < decls.len() ==> #[trigger] interpretable_ty(decls[i].ty)
}

/// The declared argument types and the return type all have a top value.
pub open spec fn summary_defined(body: Body) -> bool {
    &&& forall|i: int| 0 <= i < body.arg_count ==> #[trigger] top_of_ty(body.locals@[i + 1].ty) is Some
    &&& top_of_ty(body.locals@[0].ty) is Some
}

/// The summary built from the declared types: the top value of each
/// argument type and of the return type.
pub open spec fn summary_matches(body: Body, f: AbstractFunction) -> bool {
    &&& f.arguments@.len() == body.arg_count
    &&& forall|i: int| 0 <= i < body.arg_count ==> top_of_ty(body.locals@[i + 1].ty) == Some(#[trigger] f.arguments@[i].view())
    &&& top_of_ty(body.locals@[0].ty) == Some(f.return_val.view())
}

proof fn lemma_field_not_interpretable(fs: Vec<Ty>, j: int)
    requires
        0 <= j < fs@.len(),
        !spec_numeric_or_bool(fs@[j]),
    ensures
        !interpretable_ty(Ty::Tuple(fs)),
{
    assert(Ty::Tuple(fs)->Tuple_0 == fs);
    assert(!spec_numeric_or_bool(Ty::Tuple(fs)->Tuple_0@[j]));
}

fn is_numeric(ty: &Ty) -> (r: bool)
    ensures
        r == (*ty is Int || *ty is Uint || *ty is Float),
{
    match ty {
        Ty::Int(_) | Ty::Uint(_) | Ty::Float(_) => true,
        _ => false,
    }
}

fn is_bool(ty: &Ty) -> (r: bool)
    ensures
        r == *ty is Bool,
{
    match ty {
        Ty::Bool => true,
        _ => false,
    }
}

fn is_numeric_or_bool(ty: &Ty) -> (r: bool)
    ensures
        r == spec_numeric_or_bool(*ty),
{
    is_numeric(ty) || is_bool(ty)
}

fn is_tuple(ty: &Ty) -> (r: bool)
    ensures
        r == *ty is Tuple,
{
    matches!(ty, Ty::Tuple(_))
}

/// The field types of a tuple type; any other type is an
/// `InvalidArgumentError`.
fn tuple_fields(ty: &Ty) -> (r: Result<&Vec<Ty>, Error>)
    ensures
        match *ty {
            Ty::Tuple(fs) => r == Ok::<&Vec<Ty>, Error>(&fs),
            _ => r matches Err(e) && e.kind == ErrorKind::InvalidArgumentError,
        },
{
    match ty {
        Ty::Tuple(params) => Ok(params),
        _ => Err(Error::new(ErrorKind::InvalidArgumentError)),
    }
}

fn interpretable(ty: &Ty) -> (r: bool)
    ensures
        r == interpretable_ty(*ty),
{
    if is_numeric_or_bool(ty) {
        return true;
    }
    if !is_tuple(ty) {
        return false;
    }
    let fields = match tuple_fields(ty) {
        Ok(fs) => fs,
        Err(_) => return false,
    };
    let mut j: usize = 0;
    while j < fields.len()
        invariant
            *ty == Ty::Tuple(*fields),
            !spec_numeric_or_bool(*ty),
            j <= fields@.len(),
            forall|k: int| 0 <= k < j ==> #[trigger] spec_numeric_or_bool(fields@[k]),
        decreases fields@.len() - j,
    {
        if !is_numeric_or_bool(&fields[j]) {
            proof {
                lemma_field_not_interpretable(*fields, j as int);
            }
            return false;
        }
        j = j + 1;
    }
    true
}

/// Whether every local's type is numeric, boolean, or a tuple of numeric or
/// boolean fields; only such functions are interpreted.
pub fn can_interpret(local_decls: &[LocalDecl]) -> (r: bool)
    ensures
        r == spec_can_interpret(local_decls@),
{
    let mut i: usize = 0;
    while i < local_decls.len()
        invariant
            i <= local_decls@.len(),
            forall|k: int| 0 <= k < i ==> #[trigger] interpretable_ty(local_decls@[k].ty),
        decreases local_decls@.len() - i,
    {
        if !interpretable(&local_decls[i].ty) {
            return false;
        }
        i = i + 1;
    }
    true
}

/// Builds a function's summary from its declared types alone: the top value
/// of each argument type and of the return type. A type without a top value
/// makes it a `NotImplementedError`.
pub fn interpret_intervals(function: &Body) -> (r: Result<AbstractFunction, Error>)
    requires
        function.wf(),
    ensures
        summary_defined(*function) <==> r is Ok,
        match r {
            Ok(f) => summary_matches(*function, f),
            Err(e) => e.kind == ErrorKind::NotImplementedError,
        },
{
    let (arg_types, return_type) = get_fn_types(function);
    let mut arguments: Vec<AbstractValue> = Vec::new();
    let mut i: usize = 0;
    while i < arg_types.len()
        invariant
            function.wf(),
            arg_types@.len() == function.arg_count,
            forall|k: int| 0 <= k < function.arg_count ==> *#[trigger] arg_types@[k] == function.locals@[k + 1].ty,
            i <= arg_types@.len(),
            arguments@.len() == i,
            forall|k: int| 0 <= k < i ==> top_of_ty(function.locals@[k + 1].ty) == Some(#[trigger] arguments@[k].view()),
        decreases arg_types@.len() - i,
    {
        match AbstractValue::new(arg_types[i]) {
            Ok(v) => arguments.push(v),
            Err(e) => {
                assert(top_of_ty(function.locals@[i + 1].ty) is None);
                return Err(e);
            },
        }
        i = i + 1;
    }
    let return_val = match AbstractValue::new(return_type) {
        Ok(v) => v,
        Err(e) => return Err(e),
    };
    let f = AbstractFunction { arguments, return_val };
    assert forall|k: int| 0 <= k < function.arg_count implies #[trigger] top_of_ty(function.locals@[k + 1].ty) is Some by {
        assert(top_of_ty(function.locals@[k + 1].ty) == Some(f.arguments@[k].view()));
    }
    Ok(f)
}

/// Analyses one function: a function whose locals the interpreter does not
/// accept is an `InterpreterError`; otherwise its summary is built from its
/// declared types.
pub fn analyze_function(function: &Body) -> (r: Result<AbstractFunction, Error>)
    requires
        function.wf(),
    ensures
        !spec_can_interpret(function.locals@) ==> (r matches Err(e) && e.kind == ErrorKind::InterpreterError),
        spec_can_interpret(function.locals@) ==> {
            &&& summary_defined(*function) <==> r is Ok
            &&& match r {
                Ok(f) => summary_matches(*function, f),
                Err(e) => e.kind == ErrorKind::NotImplementedError,
            }
        },
{
    if can_interpret(function.locals()) {
        interpret_intervals(function)
    } else {
        Err(Error::new(ErrorKind::InterpreterError))
    }
}

} // verus!
