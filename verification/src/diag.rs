//! What the pass produces: diagnostics and per-node annotations.

use vstd::prelude::*;
use crate::ast::{BinOp, NodeId, UnOp};
use crate::loc::Loc;
use crate::symbol::VarId;
use crate::ty::{ClassId, FuncId, Ty};

verus! {

/// The sign between the two sides of a failed pairing.
#[derive(Clone, Copy, Debug, PartialEq, Eq, Hash, Structural)]
pub enum Operator {
    /// An assignment or an initializer.
    Assign,
    Binary(BinOp),
}

/// What is wrong.
#[derive(Clone, Debug, PartialEq, Eq)]
#[allow(inconsistent_fields)]
pub enum ErrorKind {
    /// A bare name denotes nothing visible, or is a class name that stands
    /// alone.
    UndeclaredVar(String),
    NoSuchClass(String),
    /// The owner has no member of that name.
    NoSuchField { name: String, owner: Ty },
    /// The member that is called is no method.
    NotFunc { name: String, owner: Ty },
    /// The owner is not something that has such a member.
    BadFieldAccess { name: String, owner: Ty },
    /// A field is accessed from a class that is neither the owner's class nor
    /// one of its descendants.
    PrivateFieldAccess { name: String, owner: Ty },
    /// A static method refers to an instance member without a receiver.
    RefInStatic { field: String, func: String },
    ThisInStatic,
    BreakOutOfLoop,
    IncompatibleUnary { op: UnOp, r: Ty },
    IncompatibleBinary { l: Ty, op: Operator, r: Ty },
    ReturnMismatch { actual: Ty, expect: Ty },
    /// A condition is not boolean.
    TestNotBool,
    IndexNotInt,
    IndexNotArray,
    NewArrayNotInt,
    /// The operand of a class test or of a cast is no object.
    NotObject { owner: Ty },
    ArgcMismatch { name: String, expect: usize, actual: usize },
    /// The argument at position `loc`, counted from one, does not fit its
    /// parameter.
    ArgMismatch { loc: usize, arg: Ty, param: Ty },
    /// The argument at position `loc`, counted from one, cannot be printed.
    BadPrintArg { loc: usize, ty: Ty },
    /// The length of an array was asked for with that many arguments.
    LengthWithArgument(usize),
    /// A method that must return a value has a path that does not.
    NoReturn,
    UnreachableCode,
}

/// A fault found at a position.
#[derive(Clone, Debug, PartialEq, Eq)]
pub struct Diagnostic {
    pub loc: Loc,
    pub kind: ErrorKind,
}

/// The declaration that a node was resolved to.
#[derive(Clone, Copy, Debug, PartialEq, Eq, Hash, Structural)]
pub enum Resolved {
    Var(VarId),
    Func(FuncId),
    Class(ClassId),
}

/// The annotation of one expression node: its type, and the declaration that
/// it names if it names one.
#[derive(Clone, Copy, Debug, PartialEq, Eq, Hash, Structural)]
pub struct Note {
    pub node: NodeId,
    pub ty: Ty,
    pub decl: Option<Resolved>,
}

/// What checking a piece of the tree adds to the result: diagnostics in the
/// order in which they are found, and one annotation for each expression
/// node, written when the node has been checked.
pub struct Log {
    pub errors: Seq<Diagnostic>,
    pub notes: Seq<Note>,
}

impl Log {
    pub open spec fn empty() -> Log {
        Log { errors: Seq::empty(), notes: Seq::empty() }
    }

    /// This log followed by `next`.
    pub open spec fn concat(self, next: Log) -> Log {
        Log { errors: self.errors + next.errors, notes: self.notes + next.notes }
    }

    /// This log followed by one diagnostic.
    pub open spec fn issue(self, loc: Loc, kind: ErrorKind) -> Log {
        Log { errors: self.errors.push(Diagnostic { loc, kind }), notes: self.notes }
    }

    /// This log followed by one diagnostic, if `fault` holds.
    pub open spec fn issue_if(self, fault: bool, loc: Loc, kind: ErrorKind) -> Log {
        if fault {
            self.issue(loc, kind)
        } else {
            self
        }
    }

    /// This log followed by one annotation.
    pub open spec fn note(self, n: Note) -> Log {
        Log { errors: self.errors, notes: self.notes.push(n) }
    }

    /// The same diagnostics and annotations, however the log was put together.
    pub open spec fn same(self, other: Log) -> bool {
        self.errors =~= other.errors && self.notes =~= other.notes
    }
}

} // verus!
