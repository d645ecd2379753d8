//! The type pass itself: a depth-first walk that follows the rules and never
//! stops at a fault.

use vstd::prelude::*;
use vstd::std_specs::vec::axiom_vec_index_decreases;
use crate::ast::{
    Assign, Binary, BinOp, Block, Call, Expr, ExprKind, For, If, Stmt, StmtKind, Unary, VarDef,
    VarSel, While,
};
use crate::diag::{Diagnostic, ErrorKind, Log, Note, Operator, Resolved};
use crate::loc::Loc;
use crate::program::{MethodDef, Program};
use crate::rules::{
    args_rule, assign_rule, bare_rule, binary_rule, block_returns, block_rule, call_rule,
    class_rule, classes_rule, cond_rule, definitely_returns, expr_rule, first_deciding,
    first_deciding_is_first, for_rule, if_rule, invoke_rule, length_name, member_rule,
    method_rule, methods_rule, operands_fit, print_rule, printable, program_rule, return_rule,
    stmt_rule, stmts_rule, unary_rule, var_def_rule, var_sel_rule, while_rule,
};
use crate::scopes::{found_of, Context, Scopes};
use crate::symbol::{owned, Symbol};
use crate::ty::{ClassId, Ty, TyKind};

verus! {

/// The state of a run: everything that was found so far.
#[derive(Debug)]
pub struct TypePass {
    /// The diagnostics, in the order in which they were found.
    pub errors: Vec<Diagnostic>,
    /// One annotation for each expression that was checked, in the order in
    /// which the checks were finished.
    pub notes: Vec<Note>,
}

impl View for TypePass {
    type V = Log;

    open spec fn view(&self) -> Log {
        Log { errors: self.errors@, notes: self.notes@ }
    }
}

/// Whether `name` is the name of the built-in that gives the length of an
/// array.
pub fn is_length(name: &String) -> (b: bool)
    ensures
        b == (name@ == length_name()),
{
    let length: String = "length".to_owned();
    *name == length
}

/// Decides whether the operands of a binary operator are acceptable.
pub fn check_operands(prog: &Program, op: BinOp, l: Ty, r: Ty) -> (b: bool)
    ensures
        b == operands_fit(prog, op, l, r),
{
    if l.is_error() || r.is_error() {
        return true;
    }
    match op {
        BinOp::Add | BinOp::Sub | BinOp::Mul | BinOp::Div | BinOp::Mod | BinOp::Lt | BinOp::Le
        | BinOp::Gt | BinOp::Ge => l == Ty::integer() && r == Ty::integer(),
        BinOp::Eq | BinOp::Ne => l.assignable_to(r, prog) || r.assignable_to(l, prog),
        BinOp::And | BinOp::Or => l == Ty::boolean() && r == Ty::boolean(),
    }
}

/// Decides whether a value of type `t` can be printed.
pub fn check_printable(t: Ty) -> (b: bool)
    ensures
        b == printable(t),
{
    t.is_error() || t == Ty::boolean() || t == Ty::integer() || t == Ty::string()
}

impl TypePass {
    /// A run that has found nothing yet.
    pub fn new() -> (s: TypePass)
        ensures
            s@ == Log::empty(),
    {
        TypePass { errors: Vec::new(), notes: Vec::new() }
    }

    /// Records a diagnostic.
    pub fn issue(&mut self, loc: Loc, kind: ErrorKind)
        ensures
            final(self)@ == old(self)@.issue(loc, kind),
    {
        self.errors.push(Diagnostic { loc, kind });
    }

    /// Records the annotation of a node.
    pub fn annotate(&mut self, note: Note)
        ensures
            final(self)@ == old(self)@.note(note),
    {
        self.notes.push(note);
    }

    /// Checks a program: every method of every class, in order.
    pub fn program(&mut self, p: &Program)
        ensures
            final(self)@.same(old(self)@.concat(program_rule(p))),
    {
        let ghost start = self@;
        let mut i: usize = 0;
        while i < p.classes.len()
            invariant
                i <= p.classes.len(),
                self@.concat(classes_rule(p, i as int)).same(start.concat(classes_rule(p, 0))),
            decreases p.classes.len() - i,
        {
            self.class_def(p, i);
            i = i + 1;
        }
    }

    /// Checks the methods of one class.
    pub fn class_def(&mut self, prog: &Program, class: ClassId)
        ensures
            final(self)@.same(old(self)@.concat(class_rule(prog, class))),
    {
        if class >= prog.classes.len() {
            return ;
        }
        let methods = &prog.classes[class].methods;
        let ghost start = self@;
        let mut i: usize = 0;
        while i < methods.len()
            invariant
                i <= methods.len(),
                self@.concat(methods_rule(prog, class, methods@, i as int)).same(
                    start.concat(methods_rule(prog, class, methods@, 0)),
                ),
            decreases methods.len() - i,
        {
            self.method(prog, class, &methods[i]);
            i = i + 1;
        }
    }

    /// Checks one method of class `class`: its body, and that the body
    /// definitely returns where the method returns a value.
    pub fn method(&mut self, prog: &Program, class: ClassId, m: &MethodDef)
        ensures
            final(self)@.same(old(self)@.concat(method_rule(prog, class, m))),
    {
        let outermost = Scopes::Outermost;
        let params = Scopes::Inner { table: &m.params, local: false, outer: &outermost };
        let complete = self.block(prog, Context::enter(class, m), &params, &m.body);
        if !complete && m.ret != Ty::void() {
            self.issue(m.body.loc, ErrorKind::NoReturn);
        }
    }

    /// Checks a block in a scope of its own and says whether it definitely
    /// returns.
    pub fn block(&mut self, prog: &Program, ctx: Context, scopes: &Scopes, b: &Block) -> (ret: bool)
        ensures
            ret == block_returns(b),
            final(self)@.same(old(self)@.concat(block_rule(prog, ctx, scopes, b))),
        decreases b,
    {
        let inner = Scopes::Inner { table: &b.scope, local: true, outer: scopes };
        let ghost start = self@;
        let ghost deciding = first_deciding(b.stmts@, 0);
        let mut ret = false;
        let mut ended = false;
        let mut issued = false;
        let mut i: usize = 0;
        while i < b.stmts.len()
            invariant
                i <= b.stmts.len(),
                inner == (Scopes::Inner { table: &b.scope, local: true, outer: scopes }),
                deciding == first_deciding(b.stmts@, 0),
                !ended ==> !ret && !issued && first_deciding(b.stmts@, i as int) == deciding,
                ended ==> (deciding matches Some(k) && 0 <= k < i && ret == definitely_returns(
                    &b.stmts[k],
                ) && issued == (k + 1 < i)),
                self@.concat(stmts_rule(prog, ctx, &inner, b.stmts@, i as int, deciding)).same(
                    start.concat(stmts_rule(prog, ctx, &inner, b.stmts@, 0, deciding)),
                ),
            decreases b.stmts.len() - i,
        {
            let st = &b.stmts[i];
            proof {
                first_deciding_is_first(b.stmts@, 0);
                first_deciding_is_first(b.stmts@, i as int);
            }
            if ended && !issued {
                issued = true;
                self.issue(st.loc, ErrorKind::UnreachableCode);
            }
            proof {
                axiom_vec_index_decreases(b.stmts, i as int);
            }
            let t = self.stmt(prog, ctx, &inner, st);
            if !ended {
                ret = t;
                ended = t || matches!(st.kind, StmtKind::Break);
            }
            i = i + 1;
        }
        ret
    }

    /// Checks the statements of a loop body in the scope that is already
    /// open. Nothing is reported as unreachable here.
    pub fn body(&mut self, prog: &Program, ctx: Context, scopes: &Scopes, stmts: &Vec<Stmt>)
        ensures
            final(self)@.same(old(self)@.concat(stmts_rule(prog, ctx, scopes, stmts@, 0, None))),
        decreases stmts,
    {
        let ghost start = self@;
        let mut i: usize = 0;
        while i < stmts.len()
            invariant
                i <= stmts.len(),
                self@.concat(stmts_rule(prog, ctx, scopes, stmts@, i as int, None)).same(
                    start.concat(stmts_rule(prog, ctx, scopes, stmts@, 0, None)),
                ),
            decreases stmts.len() - i,
        {
            proof {
                axiom_vec_index_decreases(*stmts, i as int);
            }
            self.stmt(prog, ctx, scopes, &stmts[i]);
            i = i + 1;
        }
    }

    /// Checks a statement and says whether it definitely returns.
    pub fn stmt(&mut self, prog: &Program, ctx: Context, scopes: &Scopes, s: &Stmt) -> (ret: bool)
        ensures
            ret == definitely_returns(s),
            final(self)@.same(old(self)@.concat(stmt_rule(prog, ctx, scopes, s))),
        decreases s,
    {
        match &s.kind {
            StmtKind::Assign(a) => {
                self.assign(prog, ctx, scopes, a, s.loc);
                false
            },
            StmtKind::LocalVarDef(v) => {
                self.var_def(prog, ctx, scopes, v);
                false
            },
            StmtKind::ExprEval(e) => {
                self.expr(prog, ctx.operand(), scopes, e);
                false
            },
            StmtKind::Skip => false,
            StmtKind::If(i) => self.if_stmt(prog, ctx, scopes, i),
            StmtKind::While(w) => {
                self.while_stmt(prog, ctx, scopes, w);
                false
            },
            StmtKind::For(f) => {
                self.for_stmt(prog, ctx, scopes, f);
                false
            },
            StmtKind::Return(r) => {
                self.return_stmt(prog, ctx, scopes, r, s.loc);
                true
            },
            StmtKind::Print(p) => {
                self.print(prog, ctx, scopes, p);
                false
            },
            StmtKind::Break => {
                if ctx.loop_depth == 0 {
                    self.issue(s.loc, ErrorKind::BreakOutOfLoop);
                }
                false
            },
            StmtKind::Block(b) => self.block(prog, ctx, scopes, b),
        }
    }

    /// Checks `dst = src`, written at `loc`.
    pub fn assign(&mut self, prog: &Program, ctx: Context, scopes: &Scopes, a: &Assign, loc: Loc)
        ensures
            final(self)@.same(old(self)@.concat(assign_rule(prog, ctx, scopes, a, loc))),
    {
        let l = self.expr(prog, ctx.operand(), scopes, &a.dst);
        let r = self.expr(prog, ctx.operand(), scopes, &a.src);
        if l.is_func() || !r.assignable_to(l, prog) {
            self.issue(loc, ErrorKind::IncompatibleBinary { l, op: Operator::Assign, r });
        }
    }

    /// Checks the declaration of a local.
    pub fn var_def(&mut self, prog: &Program, ctx: Context, scopes: &Scopes, v: &VarDef)
        ensures
            final(self)@.same(old(self)@.concat(var_def_rule(prog, ctx, scopes, v))),
    {
        match &v.init {
            Some(init) => {
                let r = self.expr(prog, ctx.initializing(v.loc), scopes, &init.expr);
                if !r.assignable_to(v.ty, prog) {
                    self.issue(
                        init.loc,
                        ErrorKind::IncompatibleBinary { l: v.ty, op: Operator::Assign, r },
                    );
                }
            },
            None => {},
        }
    }

    /// Checks a `return`, written at `loc`.
    pub fn return_stmt(
        &mut self,
        prog: &Program,
        ctx: Context,
        scopes: &Scopes,
        r: &Option<Expr>,
        loc: Loc,
    )
        ensures
            final(self)@.same(old(self)@.concat(return_rule(prog, ctx, scopes, r, loc))),
    {
        let expect = ctx.method.ret;
        match r {
            Some(e) => {
                let actual = self.expr(prog, ctx.operand(), scopes, e);
                if !actual.assignable_to(expect, prog) {
                    self.issue(loc, ErrorKind::ReturnMismatch { actual, expect });
                }
            },
            None => {
                if expect != Ty::void() {
                    self.issue(loc, ErrorKind::ReturnMismatch { actual: Ty::void(), expect });
                }
            },
        }
    }

    /// Checks the arguments of a print statement.
    pub fn print(&mut self, prog: &Program, ctx: Context, scopes: &Scopes, p: &Vec<Expr>)
        ensures
            final(self)@.same(old(self)@.concat(print_rule(prog, ctx, scopes, p@, 0))),
    {
        let ghost start = self@;
        let mut i: usize = 0;
        while i < p.len()
            invariant
                i <= p.len(),
                self@.concat(print_rule(prog, ctx, scopes, p@, i as int)).same(
                    start.concat(print_rule(prog, ctx, scopes, p@, 0)),
                ),
            decreases p.len() - i,
        {
            let ty = self.expr(prog, ctx.operand(), scopes, &p[i]);
            if !check_printable(ty) {
                self.issue(p[i].loc, ErrorKind::BadPrintArg { loc: i + 1, ty });
            }
            i = i + 1;
        }
    }

    /// Checks an `if` and says whether it definitely returns.
    pub fn if_stmt(&mut self, prog: &Program, ctx: Context, scopes: &Scopes, i: &If) -> (ret: bool)
        ensures
            ret == (block_returns(&i.on_true) && match i.on_false {
                Some(b) => block_returns(&b),
                None => false,
            }),
            final(self)@.same(old(self)@.concat(if_rule(prog, ctx, scopes, i))),
        decreases i,
    {
        self.check_bool(prog, ctx, scopes, &i.cond);
        let s1 = self.block(prog, ctx, scopes, &i.on_true);
        let s2 = match &i.on_false {
            Some(b) => self.block(prog, ctx, scopes, b),
            None => false,
        };
        s1 && s2
    }

    /// Checks a `while`.
    pub fn while_stmt(&mut self, prog: &Program, ctx: Context, scopes: &Scopes, w: &While)
        ensures
            final(self)@.same(old(self)@.concat(while_rule(prog, ctx, scopes, w))),
        decreases w,
    {
        self.check_bool(prog, ctx, scopes, &w.cond);
        self.block(prog, ctx.in_loop(), scopes, &w.body);
    }

    /// Checks a `for`.
    pub fn for_stmt(&mut self, prog: &Program, ctx: Context, scopes: &Scopes, f: &For)
        ensures
            final(self)@.same(old(self)@.concat(for_rule(prog, ctx, scopes, f))),
        decreases f,
    {
        let inner = Scopes::Inner { table: &f.body.scope, local: true, outer: scopes };
        self.stmt(prog, ctx, &inner, &f.init);
        self.check_bool(prog, ctx, &inner, &f.cond);
        self.stmt(prog, ctx, &inner, &f.update);
        self.body(prog, ctx.in_loop(), &inner, &f.body.stmts);
    }

    /// Checks a condition.
    pub fn check_bool(&mut self, prog: &Program, ctx: Context, scopes: &Scopes, e: &Expr)
        ensures
            final(self)@.same(old(self)@.concat(cond_rule(prog, ctx, scopes, e))),
    {
        let ty = self.expr(prog, ctx.operand(), scopes, e);
        if ty != Ty::boolean() && !ty.is_error() {
            self.issue(e.loc, ErrorKind::TestNotBool);
        }
    }

    /// Checks an expression, records its annotation and gives its type.
    pub fn expr(&mut self, prog: &Program, ctx: Context, scopes: &Scopes, e: &Expr) -> (ty: Ty)
        ensures
            ty == expr_rule(prog, ctx, scopes, e).ty,
            final(self)@.same(old(self)@.concat(expr_rule(prog, ctx, scopes, e).log)),
        decreases e,
    {
        let (ty, decl) = match &e.kind {
            ExprKind::VarSel(v) => self.var_sel(prog, ctx, scopes, v, e.loc),
            ExprKind::IndexSel(i) => {
                let arr = self.expr(prog, ctx.operand(), scopes, &i.arr);
                let idx = self.expr(prog, ctx.operand(), scopes, &i.idx);
                if idx != Ty::integer() && !idx.is_error() {
                    self.issue(e.loc, ErrorKind::IndexNotInt);
                }
                if arr.is_arr() {
                    (arr.elem(), None)
                } else if arr.is_error() {
                    (Ty::error(), None)
                } else {
                    self.issue(i.arr.loc, ErrorKind::IndexNotArray);
                    (Ty::error(), None)
                }
            },
            ExprKind::IntLit(_) | ExprKind::ReadInt => (Ty::integer(), None),
            ExprKind::BoolLit(_) => (Ty::boolean(), None),
            ExprKind::StringLit(_) | ExprKind::ReadLine => (Ty::string(), None),
            ExprKind::NullLit => (Ty::null(), None),
            ExprKind::Call(c) => self.call(prog, ctx, scopes, c, e.loc),
            ExprKind::Unary(u) => (self.unary(prog, ctx, scopes, u, e.loc), None),
            ExprKind::Binary(b) => (self.binary(prog, ctx, scopes, b, e.loc), None),
            ExprKind::This => {
                if !ctx.method.is_static {
                    (Ty::mk_obj(ctx.class), None)
                } else {
                    self.issue(e.loc, ErrorKind::ThisInStatic);
                    (Ty::error(), None)
                }
            },
            ExprKind::NewClass(n) => match prog.lookup_class(&n.name) {
                Some(c) => (Ty::mk_obj(c), Some(Resolved::Class(c))),
                None => {
                    self.issue(e.loc, ErrorKind::NoSuchClass(n.name.clone()));
                    (Ty::error(), None)
                },
            },
            ExprKind::NewArray(n) => {
                let len = self.expr(prog, ctx.operand(), scopes, &n.len);
                if len != Ty::integer() && !len.is_error() {
                    self.issue(n.len.loc, ErrorKind::NewArrayNotInt);
                }
                (n.elem.array(), None)
            },
            ExprKind::ClassTest(t) => {
                let src = self.expr(prog, ctx.operand(), scopes, &t.expr);
                if !src.is_error() && !src.is_object() {
                    self.issue(e.loc, ErrorKind::NotObject { owner: src });
                }
                match prog.lookup_class(&t.name) {
                    Some(c) => (Ty::boolean(), Some(Resolved::Class(c))),
                    None => {
                        self.issue(e.loc, ErrorKind::NoSuchClass(t.name.clone()));
                        (Ty::error(), None)
                    },
                }
            },
            ExprKind::ClassCast(t) => {
                let src = self.expr(prog, ctx.operand(), scopes, &t.expr);
                if !src.is_error() && !src.is_object() {
                    self.issue(e.loc, ErrorKind::NotObject { owner: src });
                }
                match prog.lookup_class(&t.name) {
                    Some(c) => (Ty::mk_obj(c), Some(Resolved::Class(c))),
                    None => {
                        self.issue(e.loc, ErrorKind::NoSuchClass(t.name.clone()));
                        (Ty::error(), None)
                    },
                }
            },
        };
        self.annotate(Note { node: e.id, ty, decl });
        ty
    }

    /// Checks the application of a binary operator at `loc`.
    pub fn binary(&mut self, prog: &Program, ctx: Context, scopes: &Scopes, b: &Binary, loc: Loc) -> (ty:
        Ty)
        ensures
            ty == binary_rule(prog, ctx, scopes, b, loc).ty,
            final(self)@.same(old(self)@.concat(binary_rule(prog, ctx, scopes, b, loc).log)),
        decreases b,
    {
        let l = self.expr(prog, ctx.operand(), scopes, &b.l);
        let r = self.expr(prog, ctx.operand(), scopes, &b.r);
        if !check_operands(prog, b.op, l, r) {
            self.issue(loc, ErrorKind::IncompatibleBinary { l, op: Operator::Binary(b.op), r });
        }
        b.op.result()
    }

    /// Checks the application of a unary operator at `loc`.
    pub fn unary(&mut self, prog: &Program, ctx: Context, scopes: &Scopes, u: &Unary, loc: Loc) -> (ty:
        Ty)
        ensures
            ty == unary_rule(prog, ctx, scopes, u, loc).ty,
            final(self)@.same(old(self)@.concat(unary_rule(prog, ctx, scopes, u, loc).log)),
        decreases u,
    {
        let r = self.expr(prog, ctx.operand(), scopes, &u.r);
        if r != u.op.operand() && !r.is_error() {
            self.issue(loc, ErrorKind::IncompatibleUnary { op: u.op, r });
        }
        u.op.result()
    }

    /// Selects member `name` from an owner of type `owner`.
    pub fn member(&mut self, prog: &Program, class: ClassId, owner: Ty, name: &String, loc: Loc) -> (r: (
        Ty,
        Option<Resolved>,
    ))
        ensures
            r.0 == member_rule(prog, class, owner, *name, loc).ty,
            r.1 == member_rule(prog, class, owner, *name, loc).decl,
            final(self)@.same(old(self)@.concat(member_rule(prog, class, owner, *name, loc).log)),
    {
        if owner.arr == 0 {
            match owner.kind {
                TyKind::Object(c) => {
                    return match prog.lookup(c, name) {
                        Some(Symbol::Var(var)) => {
                            if !prog.extends(class, c) {
                                self.issue(
                                    loc,
                                    ErrorKind::PrivateFieldAccess { name: name.clone(), owner },
                                );
                            }
                            (var.ty, Some(Resolved::Var(var.id)))
                        },
                        Some(sym) => (sym.ty(), None),
                        None => {
                            self.issue(loc, ErrorKind::NoSuchField { name: name.clone(), owner });
                            (Ty::error(), None)
                        },
                    };
                },
                TyKind::Error => {
                    return (Ty::error(), None);
                },
                _ => {},
            }
        }
        self.issue(loc, ErrorKind::BadFieldAccess { name: name.clone(), owner });
        (Ty::error(), None)
    }

    /// Types a bare name, given what it was resolved to.
    pub fn bare(&mut self, ctx: Context, found: Option<(&Symbol, bool)>, name: &String, loc: Loc) -> (r: (
        Ty,
        Option<Resolved>,
    ))
        ensures
            r.0 == bare_rule(ctx, found_of(found), *name, loc).ty,
            r.1 == bare_rule(ctx, found_of(found), *name, loc).decl,
            final(self)@.same(old(self)@.concat(bare_rule(ctx, found_of(found), *name, loc).log)),
    {
        match found {
            Some((Symbol::Var(var), in_class)) => {
                if in_class && ctx.method.is_static {
                    self.issue(
                        loc,
                        ErrorKind::RefInStatic {
                            field: name.clone(),
                            func: ctx.method.name.clone(),
                        },
                    );
                }
                (var.ty, Some(Resolved::Var(var.id)))
            },
            Some((Symbol::Func(sig), _)) => (Ty::mk_func(sig.id), None),
            Some((Symbol::This(c), _)) => (Ty::mk_obj(*c), None),
            Some((Symbol::Class(c), _)) => {
                if ctx.as_owner {
                    (Ty::mk_class(*c), None)
                } else {
                    self.issue(loc, ErrorKind::UndeclaredVar(name.clone()));
                    (Ty::error(), None)
                }
            },
            None => {
                self.issue(loc, ErrorKind::UndeclaredVar(name.clone()));
                (Ty::error(), None)
            },
        }
    }

    /// Checks `name` or `owner.name`, written at `loc`.
    pub fn var_sel(&mut self, prog: &Program, ctx: Context, scopes: &Scopes, v: &VarSel, loc: Loc) -> (r:
        (Ty, Option<Resolved>))
        ensures
            r.0 == var_sel_rule(prog, ctx, scopes, v, loc).ty,
            r.1 == var_sel_rule(prog, ctx, scopes, v, loc).decl,
            final(self)@.same(old(self)@.concat(var_sel_rule(prog, ctx, scopes, v, loc).log)),
        decreases v,
    {
        match &v.owner {
            Some(o) => {
                let owner = self.expr(prog, ctx.owner(), scopes, o);
                self.member(prog, ctx.class, owner, &v.name, loc)
            },
            None => {
                let found = scopes.lookup_before(prog, ctx.class, &v.name, ctx.horizon(loc));
                self.bare(ctx, found, &v.name, loc)
            },
        }
    }

    /// Checks `name(args)` or `owner.name(args)`, written at `loc`.
    pub fn call(&mut self, prog: &Program, ctx: Context, scopes: &Scopes, c: &Call, loc: Loc) -> (r: (
        Ty,
        Option<Resolved>,
    ))
        ensures
            r.0 == call_rule(prog, ctx, scopes, c, loc).ty,
            r.1 == call_rule(prog, ctx, scopes, c, loc).decl,
            final(self)@.same(old(self)@.concat(call_rule(prog, ctx, scopes, c, loc).log)),
        decreases c, 1int,
    {
        match &c.owner {
            Some(o) => {
                let owner = self.expr(prog, ctx.owner(), scopes, o);
                if owner.is_error() {
                    return (Ty::error(), None);
                }
                if is_length(&c.name) && owner.is_arr() {
                    if c.args.len() != 0 {
                        self.issue(loc, ErrorKind::LengthWithArgument(c.args.len()));
                    }
                    return (Ty::integer(), None);
                }
                if owner.arr == 0 {
                    match owner.kind {
                        TyKind::Class(k) | TyKind::Object(k) => {
                            let target = prog.lookup(k, &c.name);
                            return self.check_call(prog, ctx, scopes, c, owner, target, loc);
                        },
                        _ => {},
                    }
                }
                self.issue(loc, ErrorKind::BadFieldAccess { name: c.name.clone(), owner });
                (Ty::error(), None)
            },
            None => {
                let target = prog.lookup(ctx.class, &c.name);
                self.check_call(prog, ctx, scopes, c, Ty::mk_obj(ctx.class), target, loc)
            },
        }
    }

    /// Checks a call whose target was looked up in the class of `owner`.
    pub fn check_call(
        &mut self,
        prog: &Program,
        ctx: Context,
        scopes: &Scopes,
        c: &Call,
        owner: Ty,
        symbol: Option<&Symbol>,
        loc: Loc,
    ) -> (r: (Ty, Option<Resolved>))
        ensures
            r.0 == invoke_rule(prog, ctx, scopes, c, owner, owned(symbol), loc).ty,
            r.1 == invoke_rule(prog, ctx, scopes, c, owner, owned(symbol), loc).decl,
            final(self)@.same(
                old(self)@.concat(invoke_rule(prog, ctx, scopes, c, owner, owned(symbol), loc).log),
            ),
        decreases c, 0int,
    {
        match symbol {
            Some(Symbol::Func(f)) => {
                match &c.owner {
                    Some(_) => {
                        if owner.is_class() && !f.is_static {
                            self.issue(
                                loc,
                                ErrorKind::BadFieldAccess { name: c.name.clone(), owner },
                            );
                        }
                    },
                    None => {
                        if ctx.method.is_static && !f.is_static {
                            self.issue(
                                loc,
                                ErrorKind::RefInStatic {
                                    field: f.name.clone(),
                                    func: ctx.method.name.clone(),
                                },
                            );
                        }
                    },
                }
                if f.params.len() != c.args.len() {
                    self.issue(
                        loc,
                        ErrorKind::ArgcMismatch {
                            name: c.name.clone(),
                            expect: f.params.len(),
                            actual: c.args.len(),
                        },
                    );
                } else {
                    let ghost start = self@;
                    let mut i: usize = 0;
                    while i < c.args.len()
                        invariant
                            i <= c.args.len(),
                            f.params.len() == c.args.len(),
                            self@.concat(
                                args_rule(prog, ctx, scopes, c.args@, f.params@, i as int),
                            ).same(
                                start.concat(args_rule(prog, ctx, scopes, c.args@, f.params@, 0)),
                            ),
                        decreases c.args.len() - i,
                    {
                        proof {
                            axiom_vec_index_decreases(c.args, i as int);
                        }
                        let arg = self.expr(prog, ctx.operand(), scopes, &c.args[i]);
                        let param = f.params[i];
                        if !arg.assignable_to(param, prog) {
                            self.issue(
                                c.args[i].loc,
                                ErrorKind::ArgMismatch { loc: i + 1, arg, param },
                            );
                        }
                        i = i + 1;
                    }
                }
                (f.ret, Some(Resolved::Func(f.id)))
            },
            Some(_) => {
                self.issue(loc, ErrorKind::NotFunc { name: c.name.clone(), owner });
                (Ty::error(), None)
            },
            None => {
                self.issue(loc, ErrorKind::NoSuchField { name: c.name.clone(), owner });
                (Ty::error(), None)
            },
        }
    }
}

} // verus!
