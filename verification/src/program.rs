//! Classes, their inheritance links and their members.

use vstd::prelude::*;
use crate::ast::Block;
use crate::loc::Loc;
use crate::symbol::{owned, Scope, Symbol};
use crate::ty::{ClassId, Ty};

verus! {

/// A method with its body.
#[derive(Debug)]
pub struct MethodDef {
    pub name: String,
    pub loc: Loc,
    pub is_static: bool,
    /// The declared return type.
    pub ret: Ty,
    /// The table of the formal parameters, with the receiver if there is one.
    pub params: Scope,
    pub body: Block,
}

/// A class. Its identity is its position in [`Program::classes`].
#[derive(Debug)]
pub struct ClassDef {
    pub name: String,
    pub loc: Loc,
    /// The class that this one extends.
    pub parent: Option<ClassId>,
    /// The table of the members that this class declares itself.
    pub scope: Scope,
    pub methods: Vec<MethodDef>,
}

/// A parsed program with its symbol tables.
#[derive(Debug)]
pub struct Program {
    pub classes: Vec<ClassDef>,
    /// The global table, which declares the classes.
    pub scope: Scope,
}

impl Program {
    /// The parent of class `c`. An identity that no class has counts as a
    /// class without parent and without members.
    pub open spec fn parent_of(&self, c: ClassId) -> Option<ClassId> {
        if c < self.classes.len() {
            self.classes[c as int].parent
        } else {
            None
        }
    }

    /// The class reached from `c` by `k` steps to the parent.
    pub open spec fn ancestor(&self, c: ClassId, k: nat) -> Option<ClassId>
        decreases k,
    {
        if k == 0 {
            Some(c)
        } else {
            match self.parent_of(c) {
                Some(p) => self.ancestor(p, (k - 1) as nat),
                None => None,
            }
        }
    }

    /// Every parent is a class of the program, and no class is its own
    /// ancestor: walking up from any class ends before as many steps as there
    /// are classes.
    pub open spec fn wf(&self) -> bool {
        &&& forall|c: ClassId|
            c < self.classes.len() ==> (#[trigger] self.parent_of(c) matches Some(p) ==> p
                < self.classes.len())
        &&& forall|c: ClassId|
            c < self.classes.len() ==> (#[trigger] self.ancestor(
                c,
                self.classes.len() as nat,
            )).is_none()
    }

    /// Whether `c` is `of`, or reaches it in at most `fuel` steps to the parent.
    pub open spec fn extends_within(&self, c: ClassId, of: ClassId, fuel: nat) -> bool
        decreases fuel,
    {
        c == of || (fuel > 0 && match self.parent_of(c) {
            Some(p) => self.extends_within(p, of, (fuel - 1) as nat),
            None => false,
        })
    }

    /// Whether class `c` is class `of` or one of its descendants.
    pub open spec fn spec_extends(&self, c: ClassId, of: ClassId) -> bool {
        self.extends_within(c, of, self.classes.len() as nat)
    }

    #[verifier::when_used_as_spec(spec_extends)]
    pub fn extends(&self, c: ClassId, of: ClassId) -> (b: bool)
        ensures
            b == self.spec_extends(c, of),
    {
        let mut cur: ClassId = c;
        let mut fuel: usize = self.classes.len();
        loop
            invariant
                self.spec_extends(c, of) == self.extends_within(cur, of, fuel as nat),
            decreases fuel,
        {
            if cur == of {
                return true;
            }
            if fuel == 0 || cur >= self.classes.len() {
                return false;
            }
            match self.classes[cur].parent {
                Some(p) => {
                    cur = p;
                    fuel = fuel - 1;
                },
                None => {
                    return false;
                },
            }
        }
    }

    /// The member called `name` that class `c` declares itself.
    pub open spec fn own_member(&self, c: ClassId, name: Seq<char>) -> Option<Symbol> {
        if c < self.classes.len() {
            match self.classes[c as int].scope.spec_get(name) {
                Some(d) => Some(d.sym),
                None => None,
            }
        } else {
            None
        }
    }

    /// The member called `name` of `c` or of the nearest of its first `fuel`
    /// ancestors that declares one.
    pub open spec fn member_within(&self, c: ClassId, name: Seq<char>, fuel: nat) -> Option<Symbol>
        decreases fuel,
    {
        match self.own_member(c, name) {
            Some(s) => Some(s),
            None => if fuel > 0 {
                match self.parent_of(c) {
                    Some(p) => self.member_within(p, name, (fuel - 1) as nat),
                    None => None,
                }
            } else {
                None
            },
        }
    }

    /// The member called `name` of class `c`: its own, else the one it
    /// inherits. The declaration nearest to `c` wins.
    pub open spec fn spec_lookup(&self, c: ClassId, name: Seq<char>) -> Option<Symbol> {
        self.member_within(c, name, self.classes.len() as nat)
    }

    pub fn lookup(&self, c: ClassId, name: &String) -> (r: Option<&Symbol>)
        ensures
            owned(r) == self.spec_lookup(c, name@),
    {
        let mut cur: ClassId = c;
        let mut fuel: usize = self.classes.len();
        loop
            invariant
                self.spec_lookup(c, name@) == self.member_within(cur, name@, fuel as nat),
            decreases fuel,
        {
            if cur >= self.classes.len() {
                return None;
            }
            match self.classes[cur].scope.get(name) {
                Some(d) => {
                    return Some(&d.sym);
                },
                None => {},
            }
            if fuel == 0 {
                return None;
            }
            match self.classes[cur].parent {
                Some(p) => {
                    cur = p;
                    fuel = fuel - 1;
                },
                None => {
                    return None;
                },
            }
        }
    }

    /// The class that the global table declares under `name`.
    pub open spec fn spec_lookup_class(&self, name: Seq<char>) -> Option<ClassId> {
        match self.scope.spec_get(name) {
            Some(d) => match d.sym {
                Symbol::Class(c) => Some(c),
                _ => None,
            },
            None => None,
        }
    }

    pub fn lookup_class(&self, name: &String) -> (r: Option<ClassId>)
        ensures
            r == self.spec_lookup_class(name@),
    {
        match self.scope.get(name) {
            Some(d) => match &d.sym {
                Symbol::Class(c) => Some(*c),
                _ => None,
            },
            None => None,
        }
    }
}

} // verus!
