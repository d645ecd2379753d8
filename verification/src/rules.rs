//! The typing rules, as mathematical functions of the tree.
//!
//! Each rule says what checking one piece of the tree yields: the type of an
//! expression, whether a statement definitely returns, and the log of
//! diagnostics and annotations that the piece adds, in the order in which a
//! depth-first walk from left to right finds them.

use vstd::prelude::*;
use crate::ast::{
    Assign, Binary, BinOp, Block, Call, Expr, ExprKind, For, If, Stmt, StmtKind, Unary, VarDef,
    VarSel, While,
};
use crate::diag::{ErrorKind, Log, Note, Operator, Resolved};
use crate::loc::Loc;
use crate::program::{MethodDef, Program};
use crate::scopes::{Context, Found, Scopes};
use crate::symbol::Symbol;
use crate::ty::{ClassId, Ty};

verus! {

/// What checking an expression yields.
pub struct Outcome {
    /// The type of the expression. A fault that leaves no better answer
    /// yields the error type.
    pub ty: Ty,
    /// The declaration that the expression names, if it names one.
    pub decl: Option<Resolved>,
    /// What the expression and everything below it add to the log.
    pub log: Log,
}

impl Outcome {
    /// An expression of type `ty` that adds nothing to the log.
    pub open spec fn quiet(ty: Ty) -> Outcome {
        Outcome { ty, decl: None, log: Log::empty() }
    }

    /// An expression that cannot be typed, for the reason given.
    pub open spec fn fail(loc: Loc, kind: ErrorKind) -> Outcome {
        Outcome { ty: Ty::error(), decl: None, log: Log::empty().issue(loc, kind) }
    }

    /// The same outcome, reached after `before` was logged.
    pub open spec fn after(self, before: Log) -> Outcome {
        Outcome { ty: self.ty, decl: self.decl, log: before.concat(self.log) }
    }
}

/// The name of the built-in that gives the length of an array.
pub open spec fn length_name() -> Seq<char> {
    "length"@
}

/// Whether the operands of a binary operator are acceptable. An operand of
/// the error type is never held against the operator.
pub open spec fn operands_fit(prog: &Program, op: BinOp, l: Ty, r: Ty) -> bool {
    l.is_error() || r.is_error() || if op.is_arith() || op.is_relational() {
        l == Ty::integer() && r == Ty::integer()
    } else if op.is_equality() {
        l.assignable_to(r, prog) || r.assignable_to(l, prog)
    } else {
        l == Ty::boolean() && r == Ty::boolean()
    }
}

/// Whether a value of type `t` can be printed.
pub open spec fn printable(t: Ty) -> bool {
    t.is_error() || t == Ty::boolean() || t == Ty::integer() || t == Ty::string()
}

/// The member `name` selected from an owner of type `owner`, seen from
/// class `class`.
///
/// The owner must be an object. A field may be read only from the owner's
/// class or from one of its descendants; any other member has its own type
/// without further checks. An owner of the error type gives the error type
/// and no diagnostic.
pub open spec fn member_rule(prog: &Program, class: ClassId, owner: Ty, name: String, loc: Loc) -> Outcome {
    if owner.is_object() {
        let c = owner.kind->Object_0;
        match prog.spec_lookup(c, name@) {
            Some(Symbol::Var(var)) => Outcome {
                ty: var.ty,
                decl: Some(Resolved::Var(var.id)),
                log: Log::empty().issue_if(
                    !prog.extends(class, c),
                    loc,
                    ErrorKind::PrivateFieldAccess { name, owner },
                ),
            },
            Some(sym) => Outcome::quiet(sym.ty()),
            None => Outcome::fail(loc, ErrorKind::NoSuchField { name, owner }),
        }
    } else if owner.is_error() {
        Outcome::quiet(Ty::error())
    } else {
        Outcome::fail(loc, ErrorKind::BadFieldAccess { name, owner })
    }
}

/// A bare name, given what it was resolved to.
///
/// A field may not be named in a static method. A class name is a value only
/// before a dot; standing alone it is as undeclared as a name that denotes
/// nothing.
pub open spec fn bare_rule(ctx: Context, found: Option<Found>, name: String, loc: Loc) -> Outcome {
    match found {
        Some(f) => match f.sym {
            Symbol::Var(var) => Outcome {
                ty: var.ty,
                decl: Some(Resolved::Var(var.id)),
                log: Log::empty().issue_if(
                    f.in_class && ctx.method.is_static,
                    loc,
                    ErrorKind::RefInStatic { field: name, func: ctx.method.name },
                ),
            },
            Symbol::Func(sig) => Outcome::quiet(Ty::mk_func(sig.id)),
            Symbol::This(c) => Outcome::quiet(Ty::mk_obj(c)),
            Symbol::Class(c) => if ctx.as_owner {
                Outcome::quiet(Ty::mk_class(c))
            } else {
                Outcome::fail(loc, ErrorKind::UndeclaredVar(name))
            },
        },
        None => Outcome::fail(loc, ErrorKind::UndeclaredVar(name)),
    }
}

/// `name` or `owner.name`, written at `loc`.
pub open spec fn var_sel_rule(prog: &Program, ctx: Context, scopes: &Scopes, v: &VarSel, loc: Loc) -> Outcome
    decreases v,
{
    match v.owner {
        Some(o) => {
            let own = expr_rule(prog, ctx.owner(), scopes, &*o);
            member_rule(prog, ctx.class, own.ty, v.name, loc).after(own.log)
        },
        None => bare_rule(
            ctx,
            scopes.resolve(prog, ctx.class, v.name@, ctx.horizon(loc)),
            v.name,
            loc,
        ),
    }
}

/// The arguments from position `from` on, each checked against the parameter
/// at its position, independently of the others.
pub open spec fn args_rule(
    prog: &Program,
    ctx: Context,
    scopes: &Scopes,
    args: Seq<Expr>,
    params: Seq<Ty>,
    from: int,
) -> Log
    decreases args, args.len() - from,
{
    if 0 <= from < args.len() {
        let a = expr_rule(prog, ctx.operand(), scopes, &args[from]);
        a.log.issue_if(
            !a.ty.assignable_to(params[from], prog),
            args[from].loc,
            ErrorKind::ArgMismatch { loc: (from + 1) as usize, arg: a.ty, param: params[from] },
        ).concat(args_rule(prog, ctx, scopes, args, params, from + 1))
    } else {
        Log::empty()
    }
}

/// A call whose target was looked up in the class of `owner`.
///
/// The target must exist and be a method. An instance method can be called
/// neither through a class name nor, without an owner, from a static method.
/// The number of arguments must be the number of parameters; where it is not,
/// that is said once and the arguments are not looked at.
pub open spec fn invoke_rule(
    prog: &Program,
    ctx: Context,
    scopes: &Scopes,
    c: &Call,
    owner: Ty,
    target: Option<Symbol>,
    loc: Loc,
) -> Outcome
    decreases c, 0int,
{
    match target {
        Some(Symbol::Func(f)) => {
            let access = if c.owner.is_some() {
                Log::empty().issue_if(
                    owner.is_class() && !f.is_static,
                    loc,
                    ErrorKind::BadFieldAccess { name: c.name, owner },
                )
            } else {
                Log::empty().issue_if(
                    ctx.method.is_static && !f.is_static,
                    loc,
                    ErrorKind::RefInStatic { field: f.name, func: ctx.method.name },
                )
            };
            let args = if f.params.len() != c.args.len() {
                Log::empty().issue(
                    loc,
                    ErrorKind::ArgcMismatch {
                        name: c.name,
                        expect: f.params.len(),
                        actual: c.args.len(),
                    },
                )
            } else {
                args_rule(prog, ctx, scopes, c.args@, f.params@, 0)
            };
            Outcome { ty: f.ret, decl: Some(Resolved::Func(f.id)), log: access.concat(args) }
        },
        Some(_) => Outcome::fail(loc, ErrorKind::NotFunc { name: c.name, owner }),
        None => Outcome::fail(loc, ErrorKind::NoSuchField { name: c.name, owner }),
    }
}

/// `name(args)` or `owner.name(args)`, written at `loc`.
///
/// Without an owner the target is looked up in the enclosing class. With one,
/// the owner must be a class or an object, except that `length` of an array
/// takes no argument and is an integer. An owner of the error type gives the
/// error type and no diagnostic; its arguments are not looked at.
pub open spec fn call_rule(prog: &Program, ctx: Context, scopes: &Scopes, c: &Call, loc: Loc) -> Outcome
    decreases c, 1int,
{
    match c.owner {
        Some(o) => {
            let own = expr_rule(prog, ctx.owner(), scopes, &*o);
            if own.ty.is_error() {
                Outcome::quiet(Ty::error()).after(own.log)
            } else if c.name@ == length_name() && own.ty.is_arr() {
                Outcome {
                    ty: Ty::integer(),
                    decl: None,
                    log: own.log.issue_if(
                        c.args.len() != 0,
                        loc,
                        ErrorKind::LengthWithArgument(c.args.len()),
                    ),
                }
            } else if own.ty.is_class() {
                invoke_rule(
                    prog,
                    ctx,
                    scopes,
                    c,
                    own.ty,
                    prog.spec_lookup(own.ty.kind->Class_0, c.name@),
                    loc,
                ).after(own.log)
            } else if own.ty.is_object() {
                invoke_rule(
                    prog,
                    ctx,
                    scopes,
                    c,
                    own.ty,
                    prog.spec_lookup(own.ty.kind->Object_0, c.name@),
                    loc,
                ).after(own.log)
            } else {
                Outcome::fail(loc, ErrorKind::BadFieldAccess { name: c.name, owner: own.ty }).after(
                    own.log,
                )
            }
        },
        None => invoke_rule(
            prog,
            ctx,
            scopes,
            c,
            Ty::mk_obj(ctx.class),
            prog.spec_lookup(ctx.class, c.name@),
            loc,
        ),
    }
}

/// A unary operator applied at `loc`. The result has the operator's type
/// whether or not the operand fits.
pub open spec fn unary_rule(prog: &Program, ctx: Context, scopes: &Scopes, u: &Unary, loc: Loc) -> Outcome
    decreases u,
{
    let r = expr_rule(prog, ctx.operand(), scopes, &*u.r);
    Outcome {
        ty: u.op.result(),
        decl: None,
        log: r.log.issue_if(
            r.ty != u.op.operand() && !r.ty.is_error(),
            loc,
            ErrorKind::IncompatibleUnary { op: u.op, r: r.ty },
        ),
    }
}

/// A binary operator applied at `loc`. The result has the operator's type
/// whether or not the operands fit.
pub open spec fn binary_rule(prog: &Program, ctx: Context, scopes: &Scopes, b: &Binary, loc: Loc) -> Outcome
    decreases b,
{
    let l = expr_rule(prog, ctx.operand(), scopes, &*b.l);
    let r = expr_rule(prog, ctx.operand(), scopes, &*b.r);
    Outcome {
        ty: b.op.result(),
        decl: None,
        log: l.log.concat(r.log).issue_if(
            !operands_fit(prog, b.op, l.ty, r.ty),
            loc,
            ErrorKind::IncompatibleBinary { l: l.ty, op: Operator::Binary(b.op), r: r.ty },
        ),
    }
}

/// An expression before its own annotation is written.
pub open spec fn kind_rule(prog: &Program, ctx: Context, scopes: &Scopes, e: &Expr) -> Outcome
    decreases e, 0int,
{
    match e.kind {
        ExprKind::VarSel(v) => var_sel_rule(prog, ctx, scopes, &v, e.loc),
        ExprKind::IndexSel(i) => {
            let a = expr_rule(prog, ctx.operand(), scopes, &*i.arr);
            let x = expr_rule(prog, ctx.operand(), scopes, &*i.idx);
            let log = a.log.concat(x.log).issue_if(
                x.ty != Ty::integer() && !x.ty.is_error(),
                e.loc,
                ErrorKind::IndexNotInt,
            );
            if a.ty.is_arr() {
                Outcome { ty: a.ty.elem(), decl: None, log }
            } else if a.ty.is_error() {
                Outcome { ty: Ty::error(), decl: None, log }
            } else {
                Outcome::fail(i.arr.loc, ErrorKind::IndexNotArray).after(log)
            }
        },
        ExprKind::IntLit(_) => Outcome::quiet(Ty::integer()),
        ExprKind::ReadInt => Outcome::quiet(Ty::integer()),
        ExprKind::BoolLit(_) => Outcome::quiet(Ty::boolean()),
        ExprKind::StringLit(_) => Outcome::quiet(Ty::string()),
        ExprKind::ReadLine => Outcome::quiet(Ty::string()),
        ExprKind::NullLit => Outcome::quiet(Ty::null()),
        ExprKind::Call(c) => call_rule(prog, ctx, scopes, &c, e.loc),
        ExprKind::Unary(u) => unary_rule(prog, ctx, scopes, &u, e.loc),
        ExprKind::Binary(b) => binary_rule(prog, ctx, scopes, &b, e.loc),
        ExprKind::This => if !ctx.method.is_static {
            Outcome::quiet(Ty::mk_obj(ctx.class))
        } else {
            Outcome::fail(e.loc, ErrorKind::ThisInStatic)
        },
        ExprKind::NewClass(n) => match prog.spec_lookup_class(n.name@) {
            Some(c) => Outcome {
                ty: Ty::mk_obj(c),
                decl: Some(Resolved::Class(c)),
                log: Log::empty(),
            },
            None => Outcome::fail(e.loc, ErrorKind::NoSuchClass(n.name)),
        },
        ExprKind::NewArray(n) => {
            let len = expr_rule(prog, ctx.operand(), scopes, &*n.len);
            Outcome {
                ty: n.elem@.array_of(),
                decl: None,
                log: len.log.issue_if(
                    len.ty != Ty::integer() && !len.ty.is_error(),
                    n.len.loc,
                    ErrorKind::NewArrayNotInt,
                ),
            }
        },
        ExprKind::ClassTest(t) => {
            let src = expr_rule(prog, ctx.operand(), scopes, &*t.expr);
            let log = src.log.issue_if(
                !src.ty.is_error() && !src.ty.is_object(),
                e.loc,
                ErrorKind::NotObject { owner: src.ty },
            );
            match prog.spec_lookup_class(t.name@) {
                Some(c) => Outcome { ty: Ty::boolean(), decl: Some(Resolved::Class(c)), log },
                None => Outcome::fail(e.loc, ErrorKind::NoSuchClass(t.name)).after(log),
            }
        },
        ExprKind::ClassCast(t) => {
            let src = expr_rule(prog, ctx.operand(), scopes, &*t.expr);
            let log = src.log.issue_if(
                !src.ty.is_error() && !src.ty.is_object(),
                e.loc,
                ErrorKind::NotObject { owner: src.ty },
            );
            match prog.spec_lookup_class(t.name@) {
                Some(c) => Outcome { ty: Ty::mk_obj(c), decl: Some(Resolved::Class(c)), log },
                None => Outcome::fail(e.loc, ErrorKind::NoSuchClass(t.name)).after(log),
            }
        },
    }
}

/// An expression: what its kind yields, and then its annotation.
pub open spec fn expr_rule(prog: &Program, ctx: Context, scopes: &Scopes, e: &Expr) -> Outcome
    decreases e, 1int,
{
    let k = kind_rule(prog, ctx, scopes, e);
    Outcome {
        ty: k.ty,
        decl: k.decl,
        log: k.log.note(Note { node: e.id, ty: k.ty, decl: k.decl }),
    }
}

/// A condition: an expression that must be boolean.
pub open spec fn cond_rule(prog: &Program, ctx: Context, scopes: &Scopes, e: &Expr) -> Log {
    let c = expr_rule(prog, ctx.operand(), scopes, e);
    c.log.issue_if(c.ty != Ty::boolean() && !c.ty.is_error(), e.loc, ErrorKind::TestNotBool)
}

/// The arguments of a print statement from position `from` on.
pub open spec fn print_rule(prog: &Program, ctx: Context, scopes: &Scopes, args: Seq<Expr>, from: int) -> Log
    decreases args, args.len() - from,
{
    if 0 <= from < args.len() {
        let a = expr_rule(prog, ctx.operand(), scopes, &args[from]);
        a.log.issue_if(
            !printable(a.ty),
            args[from].loc,
            ErrorKind::BadPrintArg { loc: (from + 1) as usize, ty: a.ty },
        ).concat(print_rule(prog, ctx, scopes, args, from + 1))
    } else {
        Log::empty()
    }
}

/// Whether every path through the statement ends in a `return`.
///
/// A `return` does, with or without a value and whether or not the value
/// fits. An `if` does when it has both branches and both do. A block does
/// when its first deciding statement does. A loop never does: its body may
/// not run at all.
pub open spec fn definitely_returns(s: &Stmt) -> bool
    decreases s, 0int,
{
    match s.kind {
        StmtKind::Return(_) => true,
        StmtKind::If(i) => block_returns(&i.on_true) && match i.on_false {
            Some(b) => block_returns(&b),
            None => false,
        },
        StmtKind::Block(b) => block_returns(&b),
        _ => false,
    }
}

/// Whether control never passes the statement: it definitely returns or is
/// a `break`.
pub open spec fn decides(s: &Stmt) -> bool
    decreases s, 1int,
{
    definitely_returns(s) || s.kind is Break
}

/// The position of the first deciding statement at or after `from`.
pub open spec fn first_deciding(stmts: Seq<Stmt>, from: int) -> Option<int>
    decreases stmts, stmts.len() - from,
{
    if 0 <= from < stmts.len() {
        if decides(&stmts[from]) {
            Some(from)
        } else {
            first_deciding(stmts, from + 1)
        }
    } else {
        None
    }
}

/// The first deciding statement at or after `from` is in range and decides,
/// and no statement between `from` and it does; where there is none, no
/// statement from `from` on decides.
pub proof fn first_deciding_is_first(stmts: Seq<Stmt>, from: int)
    requires
        0 <= from,
    ensures
        match first_deciding(stmts, from) {
            Some(k) => from <= k < stmts.len() && decides(&stmts[k]) && forall|j: int|
                from <= j < k ==> !decides(&#[trigger] stmts[j]),
            None => forall|j: int| from <= j < stmts.len() ==> !decides(&#[trigger] stmts[j]),
        },
    decreases stmts.len() - from,
{
    if from < stmts.len() && !decides(&stmts[from]) {
        first_deciding_is_first(stmts, from + 1);
    }
}

/// Whether a block definitely returns: its first deciding statement is
/// there and definitely returns.
pub open spec fn block_returns(b: &Block) -> bool
    decreases b,
{
    match first_deciding(b.stmts@, 0) {
        Some(k) => 0 <= k < b.stmts.len() && definitely_returns(&b.stmts[k]),
        None => false,
    }
}

/// The statements from position `from` on, in the scopes given. The statement
/// that follows the deciding one, if any does, is reported as unreachable;
/// those behind it are checked without a word.
pub open spec fn stmts_rule(
    prog: &Program,
    ctx: Context,
    scopes: &Scopes,
    stmts: Seq<Stmt>,
    from: int,
    deciding: Option<int>,
) -> Log
    decreases stmts, stmts.len() - from,
{
    if 0 <= from < stmts.len() {
        Log::empty().issue_if(
            deciding == Some(from - 1),
            stmts[from].loc,
            ErrorKind::UnreachableCode,
        ).concat(stmt_rule(prog, ctx, scopes, &stmts[from])).concat(
            stmts_rule(prog, ctx, scopes, stmts, from + 1, deciding),
        )
    } else {
        Log::empty()
    }
}

/// A block: its statements in order, in a scope of their own, with the first
/// unreachable statement reported.
pub open spec fn block_rule(prog: &Program, ctx: Context, scopes: &Scopes, b: &Block) -> Log
    decreases b,
{
    stmts_rule(
        prog,
        ctx,
        &Scopes::Inner { table: &b.scope, local: true, outer: scopes },
        b.stmts@,
        0,
        first_deciding(b.stmts@, 0),
    )
}

/// `dst = src` at `loc`: the destination is no function, and the source is
/// assignable to it.
pub open spec fn assign_rule(prog: &Program, ctx: Context, scopes: &Scopes, a: &Assign, loc: Loc) -> Log {
    let l = expr_rule(prog, ctx.operand(), scopes, &a.dst);
    let r = expr_rule(prog, ctx.operand(), scopes, &a.src);
    l.log.concat(r.log).issue_if(
        l.ty.is_func() || !r.ty.assignable_to(l.ty, prog),
        loc,
        ErrorKind::IncompatibleBinary { l: l.ty, op: Operator::Assign, r: r.ty },
    )
}

/// The declaration of a local: its initializer, to which the local itself
/// is invisible, is assignable to the declared type.
pub open spec fn var_def_rule(prog: &Program, ctx: Context, scopes: &Scopes, v: &VarDef) -> Log {
    match v.init {
        Some(init) => {
            let r = expr_rule(prog, ctx.initializing(v.loc), scopes, &init.expr);
            r.log.issue_if(
                !r.ty.assignable_to(v.ty, prog),
                init.loc,
                ErrorKind::IncompatibleBinary { l: v.ty, op: Operator::Assign, r: r.ty },
            )
        },
        None => Log::empty(),
    }
}

/// `return` at `loc`: a value is assignable to the method's return type;
/// without a value the method returns nothing.
pub open spec fn return_rule(prog: &Program, ctx: Context, scopes: &Scopes, r: &Option<Expr>, loc: Loc) -> Log {
    match *r {
        Some(e) => {
            let a = expr_rule(prog, ctx.operand(), scopes, &e);
            a.log.issue_if(
                !a.ty.assignable_to(ctx.method.ret, prog),
                loc,
                ErrorKind::ReturnMismatch { actual: a.ty, expect: ctx.method.ret },
            )
        },
        None => Log::empty().issue_if(
            ctx.method.ret != Ty::void(),
            loc,
            ErrorKind::ReturnMismatch { actual: Ty::void(), expect: ctx.method.ret },
        ),
    }
}

/// `break` at `loc`: it stands inside the body of a loop.
pub open spec fn break_rule(ctx: Context, loc: Loc) -> Log {
    Log::empty().issue_if(ctx.loop_depth == 0, loc, ErrorKind::BreakOutOfLoop)
}

/// An `if`: the condition, then each branch that is there.
pub open spec fn if_rule(prog: &Program, ctx: Context, scopes: &Scopes, i: &If) -> Log
    decreases i,
{
    cond_rule(prog, ctx, scopes, &i.cond).concat(block_rule(prog, ctx, scopes, &i.on_true)).concat(
        match i.on_false {
            Some(b) => block_rule(prog, ctx, scopes, &b),
            None => Log::empty(),
        },
    )
}

/// A `while`: the condition, then the body one loop deeper.
pub open spec fn while_rule(prog: &Program, ctx: Context, scopes: &Scopes, w: &While) -> Log
    decreases w,
{
    cond_rule(prog, ctx, scopes, &w.cond).concat(block_rule(prog, ctx.in_loop(), scopes, &w.body))
}

/// A `for`: initialization, condition, update and the statements of the
/// body, all in the one scope of the body. The statements of the body stand
/// one loop deeper; initialization, condition and update do not. Nothing in
/// the body is reported as unreachable.
pub open spec fn for_rule(prog: &Program, ctx: Context, scopes: &Scopes, f: &For) -> Log
    decreases f,
{
    let inner = Scopes::Inner { table: &f.body.scope, local: true, outer: scopes };
    stmt_rule(prog, ctx, &inner, &*f.init).concat(cond_rule(prog, ctx, &inner, &f.cond)).concat(
        stmt_rule(prog, ctx, &inner, &*f.update),
    ).concat(stmts_rule(prog, ctx.in_loop(), &inner, f.body.stmts@, 0, None))
}

/// A statement.
pub open spec fn stmt_rule(prog: &Program, ctx: Context, scopes: &Scopes, s: &Stmt) -> Log
    decreases s,
{
    match s.kind {
        StmtKind::Assign(a) => assign_rule(prog, ctx, scopes, &a, s.loc),
        StmtKind::LocalVarDef(v) => var_def_rule(prog, ctx, scopes, &v),
        StmtKind::ExprEval(e) => expr_rule(prog, ctx.operand(), scopes, &e).log,
        StmtKind::Skip => Log::empty(),
        StmtKind::If(i) => if_rule(prog, ctx, scopes, &i),
        StmtKind::While(w) => while_rule(prog, ctx, scopes, &w),
        StmtKind::For(f) => for_rule(prog, ctx, scopes, &f),
        StmtKind::Return(r) => return_rule(prog, ctx, scopes, &r, s.loc),
        StmtKind::Print(p) => print_rule(prog, ctx, scopes, p@, 0),
        StmtKind::Break => break_rule(ctx, s.loc),
        StmtKind::Block(b) => block_rule(prog, ctx, scopes, &b),
    }
}

/// A method of class `class`: its body, in the scope of its parameters. A
/// method that returns a value must have a body that definitely returns.
pub open spec fn method_rule(prog: &Program, class: ClassId, m: &MethodDef) -> Log {
    block_rule(
        prog,
        Context::enter(class, m),
        &Scopes::Inner { table: &m.params, local: false, outer: &Scopes::Outermost },
        &m.body,
    ).issue_if(!block_returns(&m.body) && m.ret != Ty::void(), m.body.loc, ErrorKind::NoReturn)
}

/// The methods of class `class` from position `from` on.
pub open spec fn methods_rule(prog: &Program, class: ClassId, methods: Seq<MethodDef>, from: int) -> Log
    decreases methods.len() - from,
{
    if 0 <= from < methods.len() {
        method_rule(prog, class, &methods[from]).concat(
            methods_rule(prog, class, methods, from + 1),
        )
    } else {
        Log::empty()
    }
}

/// A class: its methods in order. An identity that no class has adds nothing.
pub open spec fn class_rule(prog: &Program, class: ClassId) -> Log {
    if class < prog.classes.len() {
        methods_rule(prog, class, prog.classes[class as int].methods@, 0)
    } else {
        Log::empty()
    }
}

/// The classes from position `from` on.
pub open spec fn classes_rule(prog: &Program, from: int) -> Log
    decreases prog.classes.len() - from,
{
    if 0 <= from < prog.classes.len() {
        class_rule(prog, from as usize).concat(classes_rule(prog, from + 1))
    } else {
        Log::empty()
    }
}

/// A program: its classes in order.
pub open spec fn program_rule(prog: &Program) -> Log {
    classes_rule(prog, 0)
}

} // verus!
