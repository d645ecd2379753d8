//! Where the pass stands: the enclosing class and method, the open scopes,
//! and how a bare name is resolved from there.

use vstd::prelude::*;
use crate::loc::Loc;
use crate::program::{MethodDef, Program};
use crate::symbol::{Scope, Symbol};
use crate::ty::ClassId;

verus! {

/// What the rules need to know of the place that is being checked. A context
/// is handed down unchanged or in a changed copy; nothing that happens below
/// a node changes the context of its siblings.
#[derive(Clone, Copy, Debug)]
pub struct Context<'a> {
    /// The enclosing class.
    pub class: ClassId,
    /// The enclosing method.
    pub method: &'a MethodDef,
    /// How many loop bodies, of `while` or of `for`, enclose the place. The
    /// count stops at the largest number that it can hold.
    pub loop_depth: u32,
    /// Where the local that is being initialized is declared, inside an
    /// initializer.
    pub cutoff: Option<Loc>,
    /// Whether the expression stands before the dot of a member access or of
    /// a call, where a class name may stand.
    pub as_owner: bool,
}

impl<'a> Context<'a> {
    pub open spec fn spec_enter(class: ClassId, method: &'a MethodDef) -> Context<'a> {
        Context { class, method, loop_depth: 0, cutoff: None, as_owner: false }
    }

    /// The context at the start of a method's body.
    #[verifier::when_used_as_spec(spec_enter)]
    pub fn enter(class: ClassId, method: &'a MethodDef) -> (c: Context<'a>)
        ensures
            c == Context::spec_enter(class, method),
    {
        Context { class, method, loop_depth: 0, cutoff: None, as_owner: false }
    }

    pub open spec fn spec_operand(self) -> Context<'a> {
        Context {
            class: self.class,
            method: self.method,
            loop_depth: self.loop_depth,
            cutoff: self.cutoff,
            as_owner: false,
        }
    }

    /// The context of an expression that must be a value.
    #[verifier::when_used_as_spec(spec_operand)]
    pub fn operand(self) -> (c: Context<'a>)
        ensures
            c == self.spec_operand(),
    {
        Context {
            class: self.class,
            method: self.method,
            loop_depth: self.loop_depth,
            cutoff: self.cutoff,
            as_owner: false,
        }
    }

    pub open spec fn spec_owner(self) -> Context<'a> {
        Context {
            class: self.class,
            method: self.method,
            loop_depth: self.loop_depth,
            cutoff: self.cutoff,
            as_owner: true,
        }
    }

    /// The context of the expression before the dot.
    #[verifier::when_used_as_spec(spec_owner)]
    pub fn owner(self) -> (c: Context<'a>)
        ensures
            c == self.spec_owner(),
    {
        Context {
            class: self.class,
            method: self.method,
            loop_depth: self.loop_depth,
            cutoff: self.cutoff,
            as_owner: true,
        }
    }

    pub open spec fn spec_initializing(self, decl: Loc) -> Context<'a> {
        Context {
            class: self.class,
            method: self.method,
            loop_depth: self.loop_depth,
            cutoff: Some(decl),
            as_owner: false,
        }
    }

    /// The context of the initializer of the local declared at `decl`.
    #[verifier::when_used_as_spec(spec_initializing)]
    pub fn initializing(self, decl: Loc) -> (c: Context<'a>)
        ensures
            c == self.spec_initializing(decl),
    {
        Context {
            class: self.class,
            method: self.method,
            loop_depth: self.loop_depth,
            cutoff: Some(decl),
            as_owner: false,
        }
    }

    pub open spec fn spec_in_loop(self) -> Context<'a> {
        Context {
            class: self.class,
            method: self.method,
            loop_depth: if self.loop_depth < u32::MAX {
                (self.loop_depth + 1) as u32
            } else {
                self.loop_depth
            },
            cutoff: self.cutoff,
            as_owner: self.as_owner,
        }
    }

    /// The context of the body of a loop, be it a `while` or a `for`.
    #[verifier::when_used_as_spec(spec_in_loop)]
    pub fn in_loop(self) -> (c: Context<'a>)
        ensures
            c == self.spec_in_loop(),
            c.loop_depth > 0,
    {
        Context {
            class: self.class,
            method: self.method,
            loop_depth: if self.loop_depth < u32::MAX {
                self.loop_depth + 1
            } else {
                self.loop_depth
            },
            cutoff: self.cutoff,
            as_owner: self.as_owner,
        }
    }

    pub open spec fn spec_horizon(self, at: Loc) -> Loc {
        match self.cutoff {
            Some(decl) => decl,
            None => at,
        }
    }

    /// The position from which on a local is invisible to a name that stands
    /// at `at`: the declaration that is being initialized, else `at` itself.
    #[verifier::when_used_as_spec(spec_horizon)]
    pub fn horizon(self, at: Loc) -> (l: Loc)
        ensures
            l == self.spec_horizon(at),
    {
        match self.cutoff {
            Some(decl) => decl,
            None => at,
        }
    }
}

/// The open scopes, innermost first.
#[derive(Debug)]
pub enum Scopes<'a> {
    /// The class level: the members of the enclosing class and of its
    /// ancestors, and behind them the global table.
    Outermost,
    /// A parameter list (`local` is false) or a block (`local` is true) inside
    /// the scopes of `outer`.
    Inner { table: &'a Scope, local: bool, outer: &'a Scopes<'a> },
}

/// What a bare name was resolved to.
pub struct Found {
    pub sym: Symbol,
    /// Whether the declaration is a member of a class.
    pub in_class: bool,
}

/// What a borrowed lookup result stands for.
pub open spec fn found_of(r: Option<(&Symbol, bool)>) -> Option<Found> {
    match r {
        Some((sym, in_class)) => Some(Found { sym: *sym, in_class }),
        None => None,
    }
}

impl<'a> Scopes<'a> {
    /// The declaration that `name` denotes when it stands at a place whose
    /// horizon is `pos`. The scopes are searched from the innermost outwards,
    /// then the enclosing class and its ancestors, then the global table; the
    /// nearest declaration wins. A local declared at `pos` or later is passed
    /// over, and the search goes on behind it.
    pub open spec fn resolve(
        &self,
        prog: &Program,
        class: ClassId,
        name: Seq<char>,
        pos: Loc,
    ) -> Option<Found>
        decreases self,
    {
        match *self {
            Scopes::Outermost => match prog.spec_lookup(class, name) {
                Some(sym) => Some(Found { sym, in_class: true }),
                None => match prog.scope.spec_get(name) {
                    Some(d) => Some(Found { sym: d.sym, in_class: false }),
                    None => None,
                },
            },
            Scopes::Inner { table, local, outer } => match table.spec_get(name) {
                Some(d) => if local && !d.loc.before(pos) {
                    outer.resolve(prog, class, name, pos)
                } else {
                    Some(Found { sym: d.sym, in_class: false })
                },
                None => outer.resolve(prog, class, name, pos),
            },
        }
    }

    /// The declaration that `name` denotes for one who sees every local,
    /// wherever it is declared: the nearest one, searched as in
    /// [`Scopes::resolve`].
    pub open spec fn find(&self, prog: &Program, class: ClassId, name: Seq<char>) -> Option<Found>
        decreases self,
    {
        match *self {
            Scopes::Outermost => match prog.spec_lookup(class, name) {
                Some(sym) => Some(Found { sym, in_class: true }),
                None => match prog.scope.spec_get(name) {
                    Some(d) => Some(Found { sym: d.sym, in_class: false }),
                    None => None,
                },
            },
            Scopes::Inner { table, local, outer } => match table.spec_get(name) {
                Some(d) => Some(Found { sym: d.sym, in_class: false }),
                None => outer.find(prog, class, name),
            },
        }
    }

    pub fn lookup(&self, prog: &'a Program, class: ClassId, name: &String) -> (r: Option<
        (&'a Symbol, bool),
    >)
        ensures
            found_of(r) == self.find(prog, class, name@),
        decreases self,
    {
        match self {
            Scopes::Outermost => match prog.lookup(class, name) {
                Some(sym) => Some((sym, true)),
                None => match prog.scope.get(name) {
                    Some(d) => Some((&d.sym, false)),
                    None => None,
                },
            },
            Scopes::Inner { table, local, outer } => match table.get(name) {
                Some(d) => Some((&d.sym, false)),
                None => outer.lookup(prog, class, name),
            },
        }
    }

    pub fn lookup_before(&self, prog: &'a Program, class: ClassId, name: &String, pos: Loc) -> (r:
        Option<(&'a Symbol, bool)>)
        ensures
            found_of(r) == self.resolve(prog, class, name@, pos),
        decreases self,
    {
        match self {
            Scopes::Outermost => match prog.lookup(class, name) {
                Some(sym) => Some((sym, true)),
                None => match prog.scope.get(name) {
                    Some(d) => Some((&d.sym, false)),
                    None => None,
                },
            },
            Scopes::Inner { table, local, outer } => match table.get(name) {
                Some(d) => if *local && !d.loc.before(pos) {
                    outer.lookup_before(prog, class, name, pos)
                } else {
                    Some((&d.sym, false))
                },
                None => outer.lookup_before(prog, class, name, pos),
            },
        }
    }
}

} // verus!
