//! Symbols and the scope tables that declare them.

use vstd::prelude::*;
use crate::loc::Loc;
use crate::ty::{ClassId, FuncId, Ty};

verus! {

/// Identity of a variable declaration: a field, a parameter or a local.
pub type VarId = usize;

/// A declared variable.
#[derive(Clone, Copy, Debug, PartialEq, Eq, Hash, Structural)]
pub struct VarDecl {
    pub id: VarId,
    /// The declared type.
    pub ty: Ty,
}

/// What a caller needs to know of a method.
#[derive(Debug, PartialEq, Eq)]
pub struct FuncSig {
    pub id: FuncId,
    pub name: String,
    pub is_static: bool,
    /// The declared return type.
    pub ret: Ty,
    /// The declared types of the parameters, in order.
    pub params: Vec<Ty>,
}

/// A declared entity that a name can resolve to.
#[derive(Debug, PartialEq, Eq)]
pub enum Symbol {
    Var(VarDecl),
    Func(FuncSig),
    /// The receiver of an instance method of the given class.
    This(ClassId),
    Class(ClassId),
}

impl Symbol {
    /// The type of an expression that names this symbol.
    pub open spec fn spec_ty(&self) -> Ty {
        match *self {
            Symbol::Var(v) => v.ty,
            Symbol::Func(f) => Ty::mk_func(f.id),
            Symbol::This(c) => Ty::mk_obj(c),
            Symbol::Class(c) => Ty::mk_class(c),
        }
    }

    #[verifier::when_used_as_spec(spec_ty)]
    pub fn ty(&self) -> (t: Ty)
        ensures
            t == self.spec_ty(),
    {
        match self {
            Symbol::Var(v) => v.ty,
            Symbol::Func(f) => Ty::mk_func(f.id),
            Symbol::This(c) => Ty::mk_obj(*c),
            Symbol::Class(c) => Ty::mk_class(*c),
        }
    }
}

/// One row of a scope table: a name, where it was declared, and what it denotes.
#[derive(Debug, PartialEq, Eq)]
pub struct Decl {
    pub name: String,
    pub loc: Loc,
    pub sym: Symbol,
}

/// The declarations of one syntactic region: the program, a class body, a
/// parameter list or a block.
#[derive(Debug, PartialEq, Eq)]
pub struct Scope {
    pub decls: Vec<Decl>,
}

/// The value behind a borrowed result.
pub open spec fn owned<T>(r: Option<&T>) -> Option<T> {
    match r {
        Some(x) => Some(*x),
        None => None,
    }
}

impl Scope {
    /// The first row at or after `from` that declares `name`.
    pub open spec fn first_from(&self, name: Seq<char>, from: int) -> Option<Decl>
        decreases self.decls.len() - from,
    {
        if 0 <= from < self.decls.len() {
            if self.decls[from].name@ == name {
                Some(self.decls[from])
            } else {
                self.first_from(name, from + 1)
            }
        } else {
            None
        }
    }

    /// The row that declares `name`: the first one, should there be several.
    pub open spec fn spec_get(&self, name: Seq<char>) -> Option<Decl> {
        self.first_from(name, 0)
    }

    pub fn new() -> (s: Scope)
        ensures
            s.decls@ == Seq::<Decl>::empty(),
    {
        Scope { decls: Vec::new() }
    }

    /// Adds a row after the ones already there.
    pub fn declare(&mut self, name: String, loc: Loc, sym: Symbol)
        ensures
            final(self).decls@ == old(self).decls@.push(Decl { name, loc, sym }),
    {
        self.decls.push(Decl { name, loc, sym });
    }

    pub fn get(&self, name: &String) -> (r: Option<&Decl>)
        ensures
            owned(r) == self.spec_get(name@),
    {
        let mut i: usize = 0;
        while i < self.decls.len()
            invariant
                i <= self.decls.len(),
                self.spec_get(name@) == self.first_from(name@, i as int),
            decreases self.decls.len() - i,
        {
            if self.decls[i].name == *name {
                return Some(&self.decls[i]);
            }
            i = i + 1;
        }
        None
    }
}

/// A lookup finds a row exactly when some row has the name, and then it is the
/// earliest such row.
pub proof fn get_finds_the_first(s: &Scope, name: Seq<char>)
    ensures
        s.spec_get(name).is_some() <==> exists|i: int|
            0 <= i < s.decls.len() && (#[trigger] s.decls[i]).name@ == name,
        s.spec_get(name) matches Some(d) ==> exists|i: int|
            0 <= i < s.decls.len() && #[trigger] s.decls[i] == d && d.name@ == name && forall|j: int|
                0 <= j < i ==> (#[trigger] s.decls[j]).name@ != name,
{
    first_from_finds_the_first(s, name, 0);
}

proof fn first_from_finds_the_first(s: &Scope, name: Seq<char>, from: int)
    requires
        0 <= from,
    ensures
        s.first_from(name, from).is_some() <==> exists|i: int|
            from <= i < s.decls.len() && (#[trigger] s.decls[i]).name@ == name,
        s.first_from(name, from) matches Some(d) ==> exists|i: int|
            from <= i < s.decls.len() && #[trigger] s.decls[i] == d && d.name@ == name && forall|j: int|
                from <= j < i ==> (#[trigger] s.decls[j]).name@ != name,
    decreases s.decls.len() - from,
{
    if from < s.decls.len() {
        if s.decls[from].name@ == name {
            assert(s.decls[from] == s.decls[from]);
        } else {
            first_from_finds_the_first(s, name, from + 1);
        }
    }
}

} // verus!
