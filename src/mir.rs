//! The function-body representation the analysis reads: types, locals,
//! places, operands, rvalues, statements and basic blocks, as a compiler
//! frontend hands them over after type checking.
use vstd::prelude::*;

verus! {

/// The index of a local variable. Local 0 holds the return value, locals
/// `1..=arg_count` hold the arguments.
pub type Local = usize;

#[derive(Debug, Clone, Copy, PartialEq, Eq, Structural)]
pub enum IntTy {
    Isize,
    I8,
    I16,
    I32,
    I64,
    I128,
}

#[derive(Debug, Clone, Copy, PartialEq, Eq, Structural)]
pub enum UintTy {
    Usize,
    U8,
    U16,
    U32,
    U64,
    U128,
}

#[derive(Debug, Clone, Copy, PartialEq, Eq, Structural)]
pub enum FloatTy {
    F32,
    F64,
}

/// A type descriptor.
#[derive(Debug, PartialEq)]
pub enum Ty {
    Bool,
    Char,
    Int(IntTy),
    Uint(UintTy),
    Float(FloatTy),
    Str,
    /// A tuple of the given field types; the unit type is the empty tuple.
    Tuple(Vec<Ty>),
    /// A shared or mutable reference.
    Ref,
    /// A struct, enum or union, by name.
    Adt(String),
}

/// A storage location. Only the local it is rooted at matters to the
/// analysis.
#[derive(Debug, Clone, Copy, PartialEq, Eq, Structural)]
pub struct Place {
    pub local: Local,
}

/// The bytes of an allocated constant; `None` marks an uninitialised byte.
#[derive(Debug, Clone, PartialEq)]
pub struct Allocation {
    pub bytes: Vec<Option<u8>>,
}

#[derive(Debug, PartialEq)]
pub enum ConstantKind {
    Allocated(Allocation),
    ZeroSized,
    /// A constant that is not evaluated yet.
    Unevaluated,
}

/// A compile-time constant and its type.
#[derive(Debug, PartialEq)]
pub struct Const {
    pub ty: Ty,
    pub kind: ConstantKind,
}

#[derive(Debug, PartialEq)]
pub struct Constant {
    pub literal: Const,
}

#[derive(Debug, PartialEq)]
pub enum Operand {
    Copy(Place),
    Move(Place),
    Constant(Constant),
}

#[derive(Debug, Clone, Copy, PartialEq, Eq, Structural)]
pub enum BinOp {
    Add,
    Sub,
    Mul,
    Div,
    Rem,
    BitXor,
    BitAnd,
    BitOr,
    Shl,
    Shr,
    Eq,
    Lt,
    Le,
    Ne,
    Ge,
    Gt,
    Offset,
}

#[derive(Debug, Clone, Copy, PartialEq, Eq, Structural)]
pub enum UnOp {
    Not,
    Neg,
}

#[derive(Debug, PartialEq)]
pub enum Rvalue {
    Use(Operand),
    BinaryOp(BinOp, Operand, Operand),
    /// A binary operation that also yields an overflow flag.
    CheckedBinaryOp(BinOp, Operand, Operand),
    UnaryOp(UnOp, Operand),
    Ref(Place),
    Len(Place),
}

#[derive(Debug, PartialEq)]
pub enum StatementKind {
    Assign(Place, Rvalue),
    Deinit(Place),
    StorageLive(Local),
    StorageDead(Local),
    Nop,
}

#[derive(Debug, PartialEq)]
pub struct Statement {
    pub kind: StatementKind,
}

/// A straight-line sequence of statements.
#[derive(Debug, PartialEq)]
pub struct BasicBlock {
    pub statements: Vec<Statement>,
}

#[derive(Debug, PartialEq)]
pub struct LocalDecl {
    pub ty: Ty,
}

/// A function body: its basic blocks in declaration order, and its locals,
/// of which the first is the return local and the next `arg_count` are the
/// arguments.
#[derive(Debug, PartialEq)]
pub struct Body {
    pub blocks: Vec<BasicBlock>,
    pub locals: Vec<LocalDecl>,
    pub arg_count: usize,
}

impl Body {
    /// The return local and the argument locals are all declared.
    pub open spec fn wf(&self) -> bool {
        self.arg_count < self.locals@.len()
    }

    pub fn new(blocks: Vec<BasicBlock>, locals: Vec<LocalDecl>, arg_count: usize) -> (r: Body)
        requires
            arg_count < locals@.len(),
        ensures
            r.blocks == blocks,
            r.locals == locals,
            r.arg_count == arg_count,
            r.wf(),
    {
        Body { blocks, locals, arg_count }
    }

    pub fn locals(&self) -> (r: &[LocalDecl])
        ensures
            r@ == self.locals@,
    {
        self.locals.as_slice()
    }

    /// The declaration of the return local.
    pub fn ret_local(&self) -> (r: &LocalDecl)
        requires
            self.wf(),
        ensures
            *r == self.locals@[0],
    {
        &self.locals[0]
    }
}

} // verus!
