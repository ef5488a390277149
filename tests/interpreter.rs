use absint::mir::{
    Allocation, BasicBlock, BinOp, Body, Const, ConstantKind, Constant, FloatTy, IntTy, LocalDecl, Operand,
    Place, Rvalue, Statement, StatementKind, Ty, UintTy,
};
use absint::{analyze_function, can_interpret, interpret_body, interpret_intervals};
use absint::{AbstractBool, AbstractValue, ErrorKind, Interval, IntervalElem};

fn decl(ty: Ty) -> LocalDecl {
    LocalDecl { ty }
}

fn unit() -> Ty {
    Ty::Tuple(vec![])
}

fn i32_ty() -> Ty {
    Ty::Int(IntTy::I32)
}

fn assign(local: usize, rvalue: Rvalue) -> Statement {
    Statement { kind: StatementKind::Assign(Place { local }, rvalue) }
}

fn copy(local: usize) -> Operand {
    Operand::Copy(Place { local })
}

fn bool_const(byte: u8) -> Operand {
    Operand::Constant(Constant {
        literal: Const { ty: Ty::Bool, kind: ConstantKind::Allocated(Allocation { bytes: vec![Some(byte)] }) },
    })
}

fn block(statements: Vec<Statement>) -> BasicBlock {
    BasicBlock { statements }
}

fn interval(lo: i128, hi: i128) -> AbstractValue {
    AbstractValue::IntInterval(Interval::from_interval(lo, hi))
}

fn int_top() -> AbstractValue {
    AbstractValue::IntInterval(Interval { lower: IntervalElem::NegInf, upper: IntervalElem::Inf })
}

#[test]
fn copy_assignment_propagates_argument() {
    // local 0: return, local 1: argument, local 2: temporary
    let body = Body::new(
        vec![block(vec![assign(2, Rvalue::Use(copy(1)))])],
        vec![decl(i32_ty()), decl(i32_ty()), decl(i32_ty())],
        1,
    );
    let state = interpret_body(&body, &vec![interval(3, 3)]).unwrap();
    assert_eq!(state.len(), 2);
    assert_eq!(state.get(&1), Some(&interval(3, 3)));
    assert_eq!(state.get(&2), Some(&interval(3, 3)));
}

#[test]
fn wrong_argument_count_is_invalid_argument() {
    let body = Body::new(vec![block(vec![])], vec![decl(i32_ty()), decl(i32_ty())], 1);
    assert_eq!(interpret_body(&body, &vec![]).unwrap_err().kind, ErrorKind::InvalidArgumentError);
    assert_eq!(
        interpret_body(&body, &vec![interval(1, 1), interval(2, 2)]).unwrap_err().kind,
        ErrorKind::InvalidArgumentError
    );
    let no_args = Body::new(vec![], vec![decl(unit())], 0);
    assert_eq!(interpret_body(&no_args, &vec![interval(0, 0)]).unwrap_err().kind, ErrorKind::InvalidArgumentError);
    assert!(interpret_body(&no_args, &vec![]).unwrap().is_empty());
}

#[test]
fn summary_of_identity_function() {
    // fn f(x: i32) -> i32 { x }
    let body = Body::new(
        vec![block(vec![assign(0, Rvalue::Use(copy(1)))])],
        vec![decl(i32_ty()), decl(i32_ty())],
        1,
    );
    let summary = interpret_intervals(&body).unwrap();
    assert_eq!(summary.arguments, vec![int_top()]);
    assert_eq!(summary.return_val, int_top());
    let analyzed = analyze_function(&body).unwrap();
    assert_eq!(analyzed.arguments, vec![int_top()]);
    assert_eq!(analyzed.return_val, int_top());
}

#[test]
fn summary_of_mixed_signature() {
    // fn f(b: bool, x: u32) -> (i64, bool)
    let body = Body::new(
        vec![],
        vec![
            decl(Ty::Tuple(vec![Ty::Int(IntTy::I64), Ty::Bool])),
            decl(Ty::Bool),
            decl(Ty::Uint(UintTy::U32)),
        ],
        2,
    );
    let summary = interpret_intervals(&body).unwrap();
    assert_eq!(
        summary.arguments,
        vec![
            AbstractValue::Bool(AbstractBool::Top),
            AbstractValue::UintInterval(Interval { lower: IntervalElem::NegInf, upper: IntervalElem::Inf }),
        ]
    );
    assert_eq!(summary.return_val, AbstractValue::Tuple(vec![int_top(), AbstractValue::Bool(AbstractBool::Top)]));
}

#[test]
fn summary_fails_on_unsupported_types() {
    let float_arg = Body::new(vec![], vec![decl(unit()), decl(Ty::Float(FloatTy::F32))], 1);
    assert_eq!(interpret_intervals(&float_arg).unwrap_err().kind, ErrorKind::NotImplementedError);
    // Float locals are accepted for interpretation, so the failure comes from the summary.
    assert_eq!(analyze_function(&float_arg).unwrap_err().kind, ErrorKind::NotImplementedError);
    let ref_return = Body::new(vec![], vec![decl(Ty::Ref), decl(i32_ty())], 1);
    assert_eq!(interpret_intervals(&ref_return).unwrap_err().kind, ErrorKind::NotImplementedError);
}

#[test]
fn gate_rejects_non_scalar_locals() {
    assert!(can_interpret(&[decl(i32_ty()), decl(Ty::Bool), decl(Ty::Tuple(vec![Ty::Uint(UintTy::U8), Ty::Float(FloatTy::F64)]))]));
    assert!(can_interpret(&[]));
    assert!(!can_interpret(&[decl(i32_ty()), decl(Ty::Ref)]));
    assert!(!can_interpret(&[decl(Ty::Tuple(vec![i32_ty(), Ty::Tuple(vec![Ty::Bool])]))]));
    assert!(!can_interpret(&[decl(Ty::Adt("Point".to_string()))]));
    let body = Body::new(vec![], vec![decl(unit()), decl(Ty::Str)], 1);
    assert_eq!(analyze_function(&body).unwrap_err().kind, ErrorKind::InterpreterError);
}

#[test]
fn binary_operators_on_intervals() {
    let body = Body::new(
        vec![block(vec![
            assign(3, Rvalue::BinaryOp(BinOp::Add, copy(1), copy(2))),
            assign(4, Rvalue::BinaryOp(BinOp::Lt, copy(1), copy(2))),
            assign(5, Rvalue::BinaryOp(BinOp::Eq, copy(1), copy(1))),
            assign(6, Rvalue::CheckedBinaryOp(BinOp::Add, copy(1), copy(1))),
        ])],
        vec![decl(unit()), decl(i32_ty()), decl(i32_ty()), decl(i32_ty()), decl(Ty::Bool), decl(Ty::Bool), decl(Ty::Tuple(vec![i32_ty(), Ty::Bool]))],
        2,
    );
    let state = interpret_body(&body, &vec![interval(1, 2), interval(10, 20)]).unwrap();
    assert_eq!(state.get(&3), Some(&interval(11, 22)));
    assert_eq!(state.get(&4), Some(&AbstractValue::Bool(AbstractBool::True)));
    assert_eq!(state.get(&5), Some(&AbstractValue::Bool(AbstractBool::Top)));
    assert_eq!(state.get(&6), Some(&AbstractValue::Tuple(vec![interval(2, 4), AbstractValue::Bool(AbstractBool::False)])));
}

#[test]
fn boolean_constants_and_equality() {
    let body = Body::new(
        vec![block(vec![
            assign(1, Rvalue::Use(bool_const(0))),
            assign(2, Rvalue::Use(bool_const(7))),
            assign(3, Rvalue::BinaryOp(BinOp::Eq, copy(1), copy(2))),
            assign(4, Rvalue::BinaryOp(BinOp::Eq, bool_const(1), copy(2))),
        ])],
        vec![decl(unit()), decl(Ty::Bool), decl(Ty::Bool), decl(Ty::Bool), decl(Ty::Bool)],
        0,
    );
    let state = interpret_body(&body, &vec![]).unwrap();
    assert_eq!(state.get(&1), Some(&AbstractValue::Bool(AbstractBool::False)));
    assert_eq!(state.get(&2), Some(&AbstractValue::Bool(AbstractBool::True)));
    assert_eq!(state.get(&3), Some(&AbstractValue::Bool(AbstractBool::False)));
    assert_eq!(state.get(&4), Some(&AbstractValue::Bool(AbstractBool::True)));
}

#[test]
fn failures_stop_only_their_block() {
    let int_const = Operand::Constant(Constant {
        literal: Const { ty: i32_ty(), kind: ConstantKind::Allocated(Allocation { bytes: vec![Some(5), Some(0), Some(0), Some(0)] }) },
    });
    let body = Body::new(
        vec![
            // Reading a local that holds nothing fails; the assignment after it is skipped.
            block(vec![assign(2, Rvalue::Use(copy(3))), assign(4, Rvalue::Use(copy(1)))]),
            // Unsupported statement, then an assignment that never runs.
            block(vec![Statement { kind: StatementKind::StorageLive(2) }, assign(5, Rvalue::Use(copy(1)))]),
            // Numeric constants are not folded.
            block(vec![assign(6, Rvalue::Use(int_const))]),
            // Mixed signedness, unsupported operator, unsupported rvalue.
            block(vec![assign(6, Rvalue::BinaryOp(BinOp::Add, copy(1), copy(7)))]),
            block(vec![assign(6, Rvalue::BinaryOp(BinOp::Sub, copy(1), copy(1)))]),
            block(vec![assign(6, Rvalue::Len(Place { local: 1 }))]),
            block(vec![assign(6, Rvalue::BinaryOp(BinOp::Lt, copy(8), copy(8)))]),
            // These still run.
            block(vec![assign(9, Rvalue::Use(copy(1))), Statement { kind: StatementKind::Deinit(Place { local: 1 }) }]),
        ],
        vec![
            decl(unit()),
            decl(i32_ty()),
            decl(i32_ty()),
            decl(i32_ty()),
            decl(i32_ty()),
            decl(i32_ty()),
            decl(i32_ty()),
            decl(Ty::Uint(UintTy::U8)),
            decl(Ty::Bool),
            decl(i32_ty()),
        ],
        1,
    );
    let state = interpret_body(&body, &vec![interval(-1, 1)]).unwrap();
    assert_eq!(state.len(), 2);
    assert_eq!(state.get(&1), Some(&AbstractValue::Uninit));
    assert_eq!(state.get(&9), Some(&interval(-1, 1)));
}
