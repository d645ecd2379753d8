//! The syntax tree that the pass walks.

use vstd::prelude::*;
use crate::loc::Loc;
use crate::symbol::Scope;
use crate::ty::{ElemTy, Ty};

verus! {

/// Identity of an expression node, under which its annotation is recorded.
pub type NodeId = usize;

#[derive(Clone, Copy, Debug, PartialEq, Eq, Hash, Structural)]
pub enum BinOp {
    Add,
    Sub,
    Mul,
    Div,
    Mod,
    And,
    Or,
    Eq,
    Ne,
    Lt,
    Le,
    Gt,
    Ge,
}

#[derive(Clone, Copy, Debug, PartialEq, Eq, Hash, Structural)]
pub enum UnOp {
    Neg,
    Not,
}

impl BinOp {
    /// `+ - * / %`
    pub open spec fn is_arith(self) -> bool {
        self is Add || self is Sub || self is Mul || self is Div || self is Mod
    }

    /// `< <= > >=`
    pub open spec fn is_relational(self) -> bool {
        self is Lt || self is Le || self is Gt || self is Ge
    }

    /// `== !=`
    pub open spec fn is_equality(self) -> bool {
        self is Eq || self is Ne
    }

    /// `&& ||`
    pub open spec fn is_logical(self) -> bool {
        self is And || self is Or
    }

    /// The type that an application of the operator has, whatever its operands.
    pub open spec fn spec_result(self) -> Ty {
        if self.is_arith() {
            Ty::integer()
        } else {
            Ty::boolean()
        }
    }

    #[verifier::when_used_as_spec(spec_result)]
    pub fn result(self) -> (t: Ty)
        ensures
            t == self.spec_result(),
    {
        match self {
            BinOp::Add | BinOp::Sub | BinOp::Mul | BinOp::Div | BinOp::Mod => Ty::integer(),
            _ => Ty::boolean(),
        }
    }
}

impl UnOp {
    /// The type that the operand must have.
    pub open spec fn spec_operand(self) -> Ty {
        match self {
            UnOp::Neg => Ty::integer(),
            UnOp::Not => Ty::boolean(),
        }
    }

    #[verifier::when_used_as_spec(spec_operand)]
    pub fn operand(self) -> (t: Ty)
        ensures
            t == self.spec_operand(),
    {
        match self {
            UnOp::Neg => Ty::integer(),
            UnOp::Not => Ty::boolean(),
        }
    }

    /// The type that an application of the operator has, whatever its operand.
    pub open spec fn spec_result(self) -> Ty {
        self.spec_operand()
    }

    #[verifier::when_used_as_spec(spec_result)]
    pub fn result(self) -> (t: Ty)
        ensures
            t == self.spec_result(),
    {
        self.operand()
    }
}

#[derive(Debug)]
pub struct Expr {
    pub id: NodeId,
    pub loc: Loc,
    pub kind: ExprKind,
}

#[derive(Debug)]
pub enum ExprKind {
    VarSel(VarSel),
    IndexSel(IndexSel),
    IntLit(i32),
    BoolLit(bool),
    StringLit(String),
    NullLit,
    /// The built-in that reads an integer.
    ReadInt,
    /// The built-in that reads a line.
    ReadLine,
    Call(Call),
    Unary(Unary),
    Binary(Binary),
    This,
    NewClass(NewClass),
    NewArray(NewArray),
    ClassTest(ClassTest),
    ClassCast(ClassCast),
}

/// `name` or `owner.name`
#[derive(Debug)]
pub struct VarSel {
    pub owner: Option<Box<Expr>>,
    pub name: String,
}

/// `arr[idx]`
#[derive(Debug)]
pub struct IndexSel {
    pub arr: Box<Expr>,
    pub idx: Box<Expr>,
}

/// `name(args)` or `owner.name(args)`
#[derive(Debug)]
pub struct Call {
    pub owner: Option<Box<Expr>>,
    pub name: String,
    pub args: Vec<Expr>,
}

#[derive(Debug)]
pub struct Unary {
    pub op: UnOp,
    pub r: Box<Expr>,
}

#[derive(Debug)]
pub struct Binary {
    pub op: BinOp,
    pub l: Box<Expr>,
    pub r: Box<Expr>,
}

/// `new name()`
#[derive(Debug)]
pub struct NewClass {
    pub name: String,
}

/// `new elem[len]`
#[derive(Debug)]
pub struct NewArray {
    pub elem: ElemTy,
    pub len: Box<Expr>,
}

/// `instanceof(expr, name)`
#[derive(Debug)]
pub struct ClassTest {
    pub expr: Box<Expr>,
    pub name: String,
}

/// `(class name) expr`
#[derive(Debug)]
pub struct ClassCast {
    pub expr: Box<Expr>,
    pub name: String,
}

#[derive(Debug)]
pub struct Stmt {
    pub loc: Loc,
    pub kind: StmtKind,
}

#[derive(Debug)]
pub enum StmtKind {
    Assign(Assign),
    LocalVarDef(VarDef),
    ExprEval(Expr),
    Skip,
    If(If),
    While(While),
    For(For),
    Return(Option<Expr>),
    Print(Vec<Expr>),
    Break,
    Block(Block),
}

/// `dst = src`
#[derive(Debug)]
pub struct Assign {
    pub dst: Expr,
    pub src: Expr,
}

/// The declaration of a local variable.
#[derive(Debug)]
pub struct VarDef {
    /// Where the declaration begins.
    pub loc: Loc,
    pub name: String,
    /// The declared type.
    pub ty: Ty,
    pub init: Option<Init>,
}

/// The initializer of a local variable.
#[derive(Debug)]
pub struct Init {
    /// Where the `=` stands.
    pub loc: Loc,
    pub expr: Expr,
}

#[derive(Debug)]
pub struct If {
    pub cond: Expr,
    pub on_true: Block,
    pub on_false: Option<Block>,
}

#[derive(Debug)]
pub struct While {
    pub cond: Expr,
    pub body: Block,
}

/// A `for` loop. The table of `body` also declares what `init` declares.
#[derive(Debug)]
pub struct For {
    pub init: Box<Stmt>,
    pub cond: Expr,
    pub update: Box<Stmt>,
    pub body: Block,
}

/// A sequence of statements with the table of the locals that it declares.
#[derive(Debug)]
pub struct Block {
    pub loc: Loc,
    pub stmts: Vec<Stmt>,
    pub scope: Scope,
}

} // verus!
