use absint::get_fn_types;
use absint::mir::{BasicBlock, Body, IntTy, LocalDecl, Ty, UintTy};

fn decl(ty: Ty) -> LocalDecl {
    LocalDecl { ty }
}

fn matches_unit(t: &Ty) -> bool {
    matches!(t, Ty::Tuple(inner) if inner.is_empty())
}

#[test]
fn function_with_no_arguments() {
    // fn no_args() { }
    let body = Body::new(vec![BasicBlock { statements: vec![] }], vec![decl(Ty::Tuple(vec![]))], 0);
    let (args_type, return_type) = get_fn_types(&body);
    assert!(args_type.is_empty());
    assert!(matches_unit(return_type));
}

#[test]
fn function_with_no_arguments_int_return() {
    // fn no_args() -> i32 { 42 }
    let body = Body::new(vec![BasicBlock { statements: vec![] }], vec![decl(Ty::Int(IntTy::I32))], 0);
    let (args_type, return_type) = get_fn_types(&body);
    assert!(args_type.is_empty());
    assert!(matches!(return_type, Ty::Int(IntTy::I32)));
}

#[test]
fn function_with_int_argument_no_return() {
    // fn no_return(x: i32) { if x == 5 {()} else {()} }
    let body = Body::new(
        vec![BasicBlock { statements: vec![] }],
        vec![decl(Ty::Tuple(vec![])), decl(Ty::Int(IntTy::I32)), decl(Ty::Bool)],
        1,
    );
    let (args_type, return_type) = get_fn_types(&body);
    assert!(matches!(args_type[..], [Ty::Int(IntTy::I32)]));
    assert!(matches_unit(return_type));
}

#[test]
fn function_with_bool_argument_int_return() {
    // fn test(b: bool) -> i32 { if b {5} else {7} }
    let body = Body::new(vec![BasicBlock { statements: vec![] }], vec![decl(Ty::Int(IntTy::I32)), decl(Ty::Bool)], 1);
    let (args_type, return_type) = get_fn_types(&body);
    assert!(matches!(args_type[..], [Ty::Bool]));
    assert!(matches!(return_type, Ty::Int(IntTy::I32)));
}

#[test]
fn function_with_multiple_arguments_uint_return() {
    // fn test(b: bool, x: i32) -> u32 { if b && x > 0 {x as u32} else {7} }
    let body = Body::new(
        vec![BasicBlock { statements: vec![] }],
        vec![decl(Ty::Uint(UintTy::U32)), decl(Ty::Bool), decl(Ty::Int(IntTy::I32)), decl(Ty::Bool), decl(Ty::Bool)],
        2,
    );
    let (args_type, return_type) = get_fn_types(&body);
    assert!(matches!(args_type[..], [Ty::Bool, Ty::Int(IntTy::I32)]));
    assert!(matches!(return_type, Ty::Uint(UintTy::U32)));
}
