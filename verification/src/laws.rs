//! Properties of the type model and of the checking rules.

use vstd::prelude::*;
use crate::ast::{Binary, Block, Call, Expr, ExprKind, For, Stmt, Unary, VarDef, While};
use crate::diag::{ErrorKind, Log, Note};
use crate::loc::Loc;
use crate::program::Program;
use crate::rules::{
    bare_rule, binary_rule, block_returns, block_rule, break_rule, call_rule, cond_rule, decides,
    definitely_returns, expr_rule, first_deciding, first_deciding_is_first, for_rule, invoke_rule,
    kind_rule, length_name, member_rule, operands_fit, stmt_rule, stmts_rule, unary_rule,
    while_rule,
};
use crate::scopes::{Context, Scopes};
use crate::symbol::{Scope, Symbol};
use crate::ty::{ClassId, Ty};

verus! {

/// Once the walk to the parents has run off the top, it stays there.
pub proof fn ancestor_none_stays(prog: &Program, c: ClassId, k: nat, more: nat)
    requires
        prog.ancestor(c, k).is_none(),
    ensures
        prog.ancestor(c, k + more).is_none(),
    decreases k,
{
    if k > 0 {
        match prog.parent_of(c) {
            Some(p) => {
                ancestor_none_stays(prog, p, (k - 1) as nat, more);
            },
            None => {},
        }
    }
}

/// Walking `j` steps and then `k` steps is walking `j + k` steps.
pub proof fn ancestor_adds(prog: &Program, c: ClassId, j: nat, k: nat)
    ensures
        prog.ancestor(c, j + k) == match prog.ancestor(c, j) {
            Some(a) => prog.ancestor(a, k),
            None => None,
        },
    decreases j,
{
    if j > 0 {
        match prog.parent_of(c) {
            Some(p) => {
                ancestor_adds(prog, p, (j - 1) as nat, k);
            },
            None => {},
        }
    }
}

/// A class that extends another reaches it by some number of steps within the
/// fuel.
pub proof fn extends_gives_ancestor(prog: &Program, c: ClassId, of: ClassId, fuel: nat) -> (k: nat)
    requires
        prog.extends_within(c, of, fuel),
    ensures
        k <= fuel,
        prog.ancestor(c, k) == Some(of),
    decreases fuel,
{
    if c == of {
        0
    } else {
        let p = prog.parent_of(c).unwrap();
        let k = extends_gives_ancestor(prog, p, of, (fuel - 1) as nat);
        k + 1
    }
}

/// A class that reaches another within the fuel extends it.
pub proof fn ancestor_gives_extends(prog: &Program, c: ClassId, of: ClassId, k: nat, fuel: nat)
    requires
        k <= fuel,
        prog.ancestor(c, k) == Some(of),
    ensures
        prog.extends_within(c, of, fuel),
    decreases k,
{
    if k > 0 {
        let p = prog.parent_of(c).unwrap();
        ancestor_gives_extends(prog, p, of, (k - 1) as nat, (fuel - 1) as nat);
    }
}

/// In a well-formed program every ancestor is reached in fewer steps than
/// there are classes.
pub proof fn ancestors_are_near(prog: &Program, c: ClassId, k: nat)
    requires
        prog.wf(),
        prog.ancestor(c, k).is_some(),
    ensures
        k == 0 || k < prog.classes.len(),
{
    let n = prog.classes.len() as nat;
    if k > 0 && k >= n {
        if c < prog.classes.len() {
            assert(prog.ancestor(c, n).is_none());
            ancestor_none_stays(prog, c, n, (k - n) as nat);
        } else {
            assert(prog.parent_of(c).is_none());
        }
    }
}

/// In a well-formed program a class extends another exactly when it is that
/// class or some chain of parents leads from it to that class, however long.
pub proof fn extends_is_reachability(prog: &Program, c: ClassId, of: ClassId)
    requires
        prog.wf(),
    ensures
        prog.extends(c, of) <==> exists|k: nat| prog.ancestor(c, k) == Some(of),
{
    let n = prog.classes.len() as nat;
    if prog.extends(c, of) {
        let k = extends_gives_ancestor(prog, c, of, n);
        assert(prog.ancestor(c, k) == Some(of));
    }
    if exists|k: nat| prog.ancestor(c, k) == Some(of) {
        let k = choose|k: nat| prog.ancestor(c, k) == Some(of);
        ancestors_are_near(prog, c, k);
        ancestor_gives_extends(prog, c, of, k, n);
    }
}

/// Every class extends itself.
pub proof fn extends_is_reflexive(prog: &Program, c: ClassId)
    ensures
        prog.extends(c, c),
{
}

/// In a well-formed program, a descendant of a descendant is a descendant.
pub proof fn extends_is_transitive(prog: &Program, c: ClassId, b: ClassId, a: ClassId)
    requires
        prog.wf(),
        prog.extends(c, b),
        prog.extends(b, a),
    ensures
        prog.extends(c, a),
{
    let n = prog.classes.len() as nat;
    let k1 = extends_gives_ancestor(prog, c, b, n);
    let k2 = extends_gives_ancestor(prog, b, a, n);
    ancestor_adds(prog, c, k1, k2);
    ancestors_are_near(prog, c, k1 + k2);
    ancestor_gives_extends(prog, c, a, k1 + k2, n);
}

/// Every type is assignable to itself.
pub proof fn assignable_is_reflexive(prog: &Program, t: Ty)
    ensures
        t.assignable_to(t, prog),
{
}

/// Assignability follows the class chain: where `c` extends `b` and `b`
/// extends `a`, an instance of `c` is assignable to an instance of `b`, that
/// to an instance of `a`, and an instance of `c` to an instance of `a`.
pub proof fn assignable_is_transitive_along_classes(
    prog: &Program,
    c: ClassId,
    b: ClassId,
    a: ClassId,
)
    requires
        prog.wf(),
        prog.extends(c, b),
        prog.extends(b, a),
    ensures
        Ty::mk_obj(c).assignable_to(Ty::mk_obj(b), prog),
        Ty::mk_obj(b).assignable_to(Ty::mk_obj(a), prog),
        Ty::mk_obj(c).assignable_to(Ty::mk_obj(a), prog),
{
    extends_is_transitive(prog, c, b, a);
}

/// Between types none of which is the error type, assignability is
/// transitive in a well-formed program.
pub proof fn assignable_is_transitive(prog: &Program, s: Ty, m: Ty, d: Ty)
    requires
        prog.wf(),
        !m.is_error(),
        s.assignable_to(m, prog),
        m.assignable_to(d, prog),
    ensures
        s.assignable_to(d, prog),
{
    if s.is_object() && m.is_object() && d.is_object() {
        if s != m && m != d {
            extends_is_transitive(prog, s.kind->Object_0, m.kind->Object_0, d.kind->Object_0);
        }
    }
}

/// The type of `null` is assignable to every object type and to every array
/// type, and to none of `int`, `bool` and `string`.
pub proof fn null_is_assignable_to_references_only(prog: &Program, dst: Ty)
    ensures
        dst.is_object() || dst.is_arr() ==> Ty::null().assignable_to(dst, prog),
        !Ty::null().assignable_to(Ty::integer(), prog),
        !Ty::null().assignable_to(Ty::boolean(), prog),
        !Ty::null().assignable_to(Ty::string(), prog),
{
}

/// Apart from the error type, a function type or a class used as a value is
/// assignable only to itself, and only itself is assignable to it.
pub proof fn functions_and_classes_are_assignable_to_themselves_only(prog: &Program, t: Ty, u: Ty)
    requires
        t.is_func() || t.is_class(),
        !u.is_error(),
    ensures
        t.assignable_to(u, prog) <==> t == u,
        u.assignable_to(t, prog) <==> t == u,
{
}

/// The error type is assignable to every type, and every type to it.
pub proof fn error_is_assignable_both_ways(prog: &Program, t: Ty)
    ensures
        Ty::error().assignable_to(t, prog),
        t.assignable_to(Ty::error(), prog),
{
}

/// A member that a class declares itself hides the one of that name that it
/// would inherit.
pub proof fn own_member_wins(prog: &Program, c: ClassId, name: Seq<char>)
    requires
        prog.own_member(c, name).is_some(),
    ensures
        prog.spec_lookup(c, name) == prog.own_member(c, name),
{
}

/// A class that declares no member of a name has the one that its parent
/// has, in a well-formed program.
pub proof fn members_are_inherited(prog: &Program, c: ClassId, p: ClassId, name: Seq<char>)
    requires
        prog.wf(),
        prog.parent_of(c) == Some(p),
        prog.own_member(c, name).is_none(),
    ensures
        prog.spec_lookup(c, name) == prog.spec_lookup(p, name),
{
    let n = prog.classes.len() as nat;
    member_fuel_is_enough(prog, p, name, (n - 1) as nat, n);
}

/// In a well-formed program, fuel beyond the length of the chain of
/// ancestors changes no lookup.
proof fn member_fuel_is_enough(prog: &Program, c: ClassId, name: Seq<char>, fuel: nat, more: nat)
    requires
        prog.wf(),
        fuel <= more,
        prog.ancestor(c, fuel + 1).is_none(),
    ensures
        prog.member_within(c, name, fuel) == prog.member_within(c, name, more),
    decreases fuel,
{
    if prog.own_member(c, name).is_none() {
        match prog.parent_of(c) {
            Some(p) => {
                if fuel > 0 {
                    member_fuel_is_enough(prog, p, name, (fuel - 1) as nat, (more - 1) as nat);
                } else {
                    assert(prog.ancestor(p, 0) == Some(p));
                }
            },
            None => {},
        }
    }
}

/// An operand of the error type is never held against a binary operator:
/// the application adds no diagnostic of its own and has the operator's type.
pub proof fn binary_absorbs_error(prog: &Program, ctx: Context, scopes: &Scopes, b: &Binary, loc: Loc)
    requires
        expr_rule(prog, ctx.operand(), scopes, &*b.l).ty.is_error() || expr_rule(
            prog,
            ctx.operand(),
            scopes,
            &*b.r,
        ).ty.is_error(),
    ensures
        binary_rule(prog, ctx, scopes, b, loc).ty == b.op.result(),
        binary_rule(prog, ctx, scopes, b, loc).log == expr_rule(
            prog,
            ctx.operand(),
            scopes,
            &*b.l,
        ).log.concat(expr_rule(prog, ctx.operand(), scopes, &*b.r).log),
{
}

/// An operand of the error type is never held against a unary operator: the
/// application adds no diagnostic of its own and has the operator's type.
pub proof fn unary_absorbs_error(prog: &Program, ctx: Context, scopes: &Scopes, u: &Unary, loc: Loc)
    requires
        expr_rule(prog, ctx.operand(), scopes, &*u.r).ty.is_error(),
    ensures
        unary_rule(prog, ctx, scopes, u, loc).ty == u.op.result(),
        unary_rule(prog, ctx, scopes, u, loc).log == expr_rule(
            prog,
            ctx.operand(),
            scopes,
            &*u.r,
        ).log,
{
}

/// The type of an application is the operator's own, whatever the operands
/// are; operands that do not fit add exactly one diagnostic, at the operator.
pub proof fn binary_has_the_type_of_its_operator(
    prog: &Program,
    ctx: Context,
    scopes: &Scopes,
    b: &Binary,
    loc: Loc,
)
    ensures
        binary_rule(prog, ctx, scopes, b, loc).ty == b.op.result(),
        b.op.is_arith() ==> binary_rule(prog, ctx, scopes, b, loc).ty == Ty::integer(),
        !b.op.is_arith() ==> binary_rule(prog, ctx, scopes, b, loc).ty == Ty::boolean(),
        ({
            let l = expr_rule(prog, ctx.operand(), scopes, &*b.l);
            let r = expr_rule(prog, ctx.operand(), scopes, &*b.r);
            let own = binary_rule(prog, ctx, scopes, b, loc).log.errors.len() - l.log.errors.len()
                - r.log.errors.len();
            own == if operands_fit(prog, b.op, l.ty, r.ty) {
                0int
            } else {
                1int
            }
        }),
{
}

/// A local is invisible to a name whose horizon is the local's own
/// declaration or lies before it: the search goes on in the scopes outside.
pub proof fn later_local_is_passed_over(
    prog: &Program,
    class: ClassId,
    scopes: &Scopes,
    name: Seq<char>,
    pos: Loc,
)
    requires
        scopes is Inner,
        scopes->local,
        scopes->table.spec_get(name) is Some,
        !scopes->table.spec_get(name)->Some_0.loc.before(pos),
    ensures
        scopes.resolve(prog, class, name, pos) == scopes->outer.resolve(prog, class, name, pos),
{
}

/// Inside the initializer of a local, names are resolved as seen from the
/// local's declaration, wherever in the initializer they stand.
pub proof fn initializer_is_seen_from_the_declaration(ctx: Context, v: &VarDef, at: Loc)
    ensures
        ctx.initializing(v.loc).horizon(at) == v.loc,
        ctx.initializing(v.loc).operand().horizon(at) == v.loc,
        ctx.initializing(v.loc).owner().horizon(at) == v.loc,
{
}

/// A name that denotes nothing, and a class name that stands alone, are
/// undeclared.
pub proof fn unresolved_name_is_undeclared(ctx: Context, name: String, loc: Loc, c: ClassId)
    requires
        !ctx.as_owner,
    ensures
        bare_rule(ctx, None, name, loc).ty == Ty::error(),
        bare_rule(ctx, None, name, loc).log == Log::empty().issue(
            loc,
            ErrorKind::UndeclaredVar(name),
        ),
        bare_rule(
            ctx,
            Some(crate::scopes::Found { sym: Symbol::Class(c), in_class: false }),
            name,
            loc,
        ) == bare_rule(ctx, None, name, loc),
{
}

/// A field of an object of class `c` can be read from `c` and from its
/// descendants without a word, and from any other class with exactly the
/// diagnostic of a private access. Either way the access has the field's type.
pub proof fn fields_are_private_to_the_family(
    prog: &Program,
    class: ClassId,
    c: ClassId,
    name: String,
    loc: Loc,
)
    requires
        prog.spec_lookup(c, name@) is Some,
        prog.spec_lookup(c, name@)->Some_0 is Var,
    ensures
        member_rule(prog, class, Ty::mk_obj(c), name, loc).ty == prog.spec_lookup(
            c,
            name@,
        )->Some_0->Var_0.ty,
        prog.extends(class, c) ==> member_rule(prog, class, Ty::mk_obj(c), name, loc).log
            == Log::empty(),
        !prog.extends(class, c) ==> member_rule(prog, class, Ty::mk_obj(c), name, loc).log
            == Log::empty().issue(
            loc,
            ErrorKind::PrivateFieldAccess { name, owner: Ty::mk_obj(c) },
        ),
{
}

/// `length` of an array is an integer whatever is passed to it, and passing
/// anything is reported with the number of arguments.
pub proof fn length_of_an_array_is_an_integer(
    prog: &Program,
    ctx: Context,
    scopes: &Scopes,
    c: &Call,
    loc: Loc,
)
    requires
        c.owner is Some,
        c.name@ == length_name(),
        expr_rule(prog, ctx.owner(), scopes, &*c.owner->Some_0).ty.is_arr(),
    ensures
        call_rule(prog, ctx, scopes, c, loc).ty == Ty::integer(),
        call_rule(prog, ctx, scopes, c, loc).log == expr_rule(
            prog,
            ctx.owner(),
            scopes,
            &*c.owner->Some_0,
        ).log.issue_if(c.args.len() != 0, loc, ErrorKind::LengthWithArgument(c.args.len())),
{
}

/// A `break` is reported exactly when no loop body encloses it; in the
/// context of a loop body it never is.
pub proof fn break_needs_a_loop(ctx: Context, loc: Loc)
    ensures
        ctx.loop_depth == 0 ==> break_rule(ctx, loc) == Log::empty().issue(
            loc,
            ErrorKind::BreakOutOfLoop,
        ),
        ctx.loop_depth > 0 ==> break_rule(ctx, loc) == Log::empty(),
        break_rule(ctx.in_loop(), loc) == Log::empty(),
{
}

/// The body of a `while` and the statements of the body of a `for` are
/// checked one loop deeper than the loop itself; the header of the loop is
/// not.
pub proof fn loop_bodies_are_one_loop_deeper(
    prog: &Program,
    ctx: Context,
    scopes: &Scopes,
    w: &While,
    f: &For,
)
    ensures
        while_rule(prog, ctx, scopes, w) == cond_rule(prog, ctx, scopes, &w.cond).concat(
            block_rule(prog, ctx.in_loop(), scopes, &w.body),
        ),
        ({
            let inner = Scopes::Inner { table: &f.body.scope, local: true, outer: scopes };
            for_rule(prog, ctx, scopes, f) == stmt_rule(prog, ctx, &inner, &*f.init).concat(
                cond_rule(prog, ctx, &inner, &f.cond),
            ).concat(stmt_rule(prog, ctx, &inner, &*f.update)).concat(
                stmts_rule(prog, ctx.in_loop(), &inner, f.body.stmts@, 0, None),
            )
        }),
{
}

/// A `break` that is a statement of the body of a `while` or of a `for` is
/// never reported, however deep the loop itself stands.
pub proof fn break_in_a_loop_body_is_fine(
    prog: &Program,
    ctx: Context,
    scopes: &Scopes,
    w: &While,
    f: &For,
    k: int,
)
    ensures
        0 <= k < w.body.stmts.len() && w.body.stmts[k].kind is Break ==> stmt_rule(
            prog,
            ctx.in_loop(),
            &Scopes::Inner { table: &w.body.scope, local: true, outer: scopes },
            &w.body.stmts[k],
        ) == Log::empty(),
        0 <= k < f.body.stmts.len() && f.body.stmts[k].kind is Break ==> stmt_rule(
            prog,
            ctx.in_loop(),
            &Scopes::Inner { table: &f.body.scope, local: true, outer: scopes },
            &f.body.stmts[k],
        ) == Log::empty(),
{
}

/// A `for` whose body is nothing but a `break` adds what its header adds
/// and no more, at any loop depth.
pub proof fn for_with_a_break_adds_its_header_only(
    prog: &Program,
    ctx: Context,
    scopes: &Scopes,
    f: &For,
)
    requires
        f.body.stmts.len() == 1,
        f.body.stmts[0].kind is Break,
    ensures
        ({
            let inner = Scopes::Inner { table: &f.body.scope, local: true, outer: scopes };
            for_rule(prog, ctx, scopes, f).same(
                stmt_rule(prog, ctx, &inner, &*f.init).concat(
                    cond_rule(prog, ctx, &inner, &f.cond),
                ).concat(stmt_rule(prog, ctx, &inner, &*f.update)),
            )
        }),
{
    let inner = Scopes::Inner { table: &f.body.scope, local: true, outer: scopes };
    let deep = ctx.in_loop();
    assert(stmt_rule(prog, deep, &inner, &f.body.stmts[0]) == Log::empty());
    assert(stmts_rule(prog, deep, &inner, f.body.stmts@, 1, None) == Log::empty());
    assert(stmts_rule(prog, deep, &inner, f.body.stmts@, 0, None).same(Log::empty()));
}

/// An `if` definitely returns exactly when it has both branches and both
/// definitely return.
pub proof fn if_needs_both_branches(s: &Stmt)
    requires
        s.kind is If,
    ensures
        s.kind->If_0.on_false is None ==> !definitely_returns(s),
        definitely_returns(s) <==> (block_returns(&s.kind->If_0.on_true)
            && s.kind->If_0.on_false is Some && block_returns(&s.kind->If_0.on_false->Some_0)),
{
}

/// A `return` definitely returns. A loop never does, and neither does any
/// statement that is not a `return`, an `if` or a block.
pub proof fn what_definitely_returns(s: &Stmt)
    ensures
        s.kind is Return ==> definitely_returns(s),
        s.kind is While || s.kind is For ==> !definitely_returns(s),
        !(s.kind is Return || s.kind is If || s.kind is Block) ==> !definitely_returns(s),
        s.kind is Break ==> decides(s) && !definitely_returns(s),
{
}

/// A block definitely returns exactly when one of its statements definitely
/// returns and no `break` and no other such statement stands before it.
pub proof fn block_returns_by_its_first_deciding_statement(b: &Block)
    ensures
        block_returns(b) <==> exists|k: int|
            0 <= k < b.stmts.len() && definitely_returns(&#[trigger] b.stmts[k]) && forall|j: int|
                0 <= j < k ==> !decides(&#[trigger] b.stmts[j]),
{
    first_deciding_is_first(b.stmts@, 0);
    if block_returns(b) {
        let k = first_deciding(b.stmts@, 0)->Some_0;
        assert(definitely_returns(&b.stmts[k]));
    }
    if exists|k: int|
        0 <= k < b.stmts.len() && definitely_returns(&#[trigger] b.stmts[k]) && forall|j: int|
            0 <= j < k ==> !decides(&#[trigger] b.stmts[j]) {
        let k = choose|k: int|
            0 <= k < b.stmts.len() && definitely_returns(&#[trigger] b.stmts[k]) && forall|j: int|
                0 <= j < k ==> !decides(&#[trigger] b.stmts[j]);
        assert(decides(&b.stmts[k]));
        match first_deciding(b.stmts@, 0) {
            Some(f) => {
                if f < k {
                    assert(!decides(&b.stmts[f]));
                }
                if k < f {
                    assert(!decides(&b.stmts[k]));
                }
            },
            None => {
                assert(!decides(&b.stmts[k]));
            },
        }
    }
}

/// Where no local that declares the name stands at the horizon or behind
/// it, the horizon hides nothing.
pub proof fn horizon_hides_later_locals_only(
    prog: &Program,
    class: ClassId,
    scopes: &Scopes,
    name: Seq<char>,
    pos: Loc,
)
    requires
        nothing_hidden(scopes, name, pos),
    ensures
        scopes.resolve(prog, class, name, pos) == scopes.find(prog, class, name),
    decreases scopes,
{
    match *scopes {
        Scopes::Outermost => {},
        Scopes::Inner { table, local, outer } => {
            horizon_hides_later_locals_only(prog, class, outer, name, pos);
        },
    }
}

/// Whether every local called `name` in the open blocks is declared before
/// `pos`.
pub open spec fn nothing_hidden(scopes: &Scopes, name: Seq<char>, pos: Loc) -> bool
    decreases scopes,
{
    match *scopes {
        Scopes::Outermost => true,
        Scopes::Inner { table, local, outer } => {
            &&& local ==> (table.spec_get(name) matches Some(d) ==> d.loc.before(pos))
            &&& nothing_hidden(outer, name, pos)
        },
    }
}

/// The last annotation that an expression adds is its own, and it carries
/// the type and the declaration that the expression was given.
pub proof fn expression_is_annotated_last(prog: &Program, ctx: Context, scopes: &Scopes, e: &Expr)
    ensures
        expr_rule(prog, ctx, scopes, e).log.notes.len() > 0,
        expr_rule(prog, ctx, scopes, e).log.notes.last() == (Note {
            node: e.id,
            ty: expr_rule(prog, ctx, scopes, e).ty,
            decl: expr_rule(prog, ctx, scopes, e).decl,
        }),
{
}

/// Whether the declared types that a symbol carries are well formed.
pub open spec fn symbol_wf(sym: Symbol) -> bool {
    match sym {
        Symbol::Var(v) => v.ty.wf(),
        Symbol::Func(f) => f.ret.wf(),
        _ => true,
    }
}

/// Whether every row of the table carries well-formed types.
pub open spec fn scope_wf(table: &Scope) -> bool {
    forall|i: int| 0 <= i < table.decls.len() ==> symbol_wf((#[trigger] table.decls[i]).sym)
}

/// Whether every table of the program carries well-formed types.
pub open spec fn tables_wf(prog: &Program) -> bool {
    &&& scope_wf(&prog.scope)
    &&& forall|c: int| 0 <= c < prog.classes.len() ==> scope_wf(&(#[trigger] prog.classes[c]).scope)
}

/// Whether every open table carries well-formed types.
pub open spec fn scopes_wf(scopes: &Scopes) -> bool
    decreases scopes,
{
    match *scopes {
        Scopes::Outermost => true,
        Scopes::Inner { table, local, outer } => scope_wf(table) && scopes_wf(outer),
    }
}

/// Whether the arrays that the expression allocates, itself or as the array
/// that it indexes, have elements of an element-bearing kind.
pub open spec fn allocates_well(e: &Expr) -> bool
    decreases e,
{
    match e.kind {
        ExprKind::NewArray(n) => n.elem@.kind.bears_elements() && n.elem@.arr < u32::MAX,
        ExprKind::IndexSel(i) => allocates_well(&*i.arr),
        _ => true,
    }
}

proof fn found_row_is_wf(table: &Scope, name: Seq<char>)
    requires
        scope_wf(table),
    ensures
        table.spec_get(name) matches Some(d) ==> symbol_wf(d.sym),
{
    crate::symbol::get_finds_the_first(table, name);
}

proof fn found_member_is_wf(prog: &Program, c: ClassId, name: Seq<char>, fuel: nat)
    requires
        tables_wf(prog),
    ensures
        prog.member_within(c, name, fuel) matches Some(sym) ==> symbol_wf(sym),
    decreases fuel,
{
    if c < prog.classes.len() {
        found_row_is_wf(&prog.classes[c as int].scope, name);
    }
    if prog.own_member(c, name).is_none() && fuel > 0 {
        match prog.parent_of(c) {
            Some(p) => {
                found_member_is_wf(prog, p, name, (fuel - 1) as nat);
            },
            None => {},
        }
    }
}

proof fn resolved_symbol_is_wf(prog: &Program, class: ClassId, scopes: &Scopes, name: Seq<char>, pos: Loc)
    requires
        tables_wf(prog),
        scopes_wf(scopes),
    ensures
        scopes.resolve(prog, class, name, pos) matches Some(f) ==> symbol_wf(f.sym),
    decreases scopes,
{
    match *scopes {
        Scopes::Outermost => {
            found_member_is_wf(prog, class, name, prog.classes.len() as nat);
            found_row_is_wf(&prog.scope, name);
        },
        Scopes::Inner { table, local, outer } => {
            found_row_is_wf(table, name);
            resolved_symbol_is_wf(prog, class, outer, name, pos);
        },
    }
}

/// The pass keeps types well formed: where the tables carry well-formed
/// types and arrays are allocated with elements of an element-bearing kind,
/// the type of every expression is well formed.
pub proof fn expression_types_are_wf(prog: &Program, ctx: Context, scopes: &Scopes, e: &Expr)
    requires
        tables_wf(prog),
        scopes_wf(scopes),
        allocates_well(e),
    ensures
        expr_rule(prog, ctx, scopes, e).ty.wf(),
    decreases e,
{
    let n = prog.classes.len() as nat;
    assert(expr_rule(prog, ctx, scopes, e).ty == kind_rule(prog, ctx, scopes, e).ty);
    match e.kind {
        ExprKind::VarSel(v) => {
            match v.owner {
                Some(o) => {
                    let own = expr_rule(prog, ctx.owner(), scopes, &*o);
                    if own.ty.is_object() {
                        found_member_is_wf(prog, own.ty.kind->Object_0, v.name@, n);
                    }
                    assert(member_rule(prog, ctx.class, own.ty, v.name, e.loc).ty.wf());
                },
                None => {
                    resolved_symbol_is_wf(prog, ctx.class, scopes, v.name@, ctx.horizon(e.loc));
                    let found = scopes.resolve(prog, ctx.class, v.name@, ctx.horizon(e.loc));
                    assert(bare_rule(ctx, found, v.name, e.loc).ty.wf());
                },
            }
        },
        ExprKind::IndexSel(i) => {
            expression_types_are_wf(prog, ctx.operand(), scopes, &*i.arr);
        },
        ExprKind::Call(c) => {
            match c.owner {
                Some(o) => {
                    let own = expr_rule(prog, ctx.owner(), scopes, &*o);
                    if own.ty.is_class() {
                        let k = own.ty.kind->Class_0;
                        found_member_is_wf(prog, k, c.name@, n);
                        assert(invoke_rule(
                            prog,
                            ctx,
                            scopes,
                            &c,
                            own.ty,
                            prog.spec_lookup(k, c.name@),
                            e.loc,
                        ).ty.wf());
                    }
                    if own.ty.is_object() {
                        let k = own.ty.kind->Object_0;
                        found_member_is_wf(prog, k, c.name@, n);
                        assert(invoke_rule(
                            prog,
                            ctx,
                            scopes,
                            &c,
                            own.ty,
                            prog.spec_lookup(k, c.name@),
                            e.loc,
                        ).ty.wf());
                    }
                },
                None => {
                    found_member_is_wf(prog, ctx.class, c.name@, n);
                    assert(invoke_rule(
                        prog,
                        ctx,
                        scopes,
                        &c,
                        Ty::mk_obj(ctx.class),
                        prog.spec_lookup(ctx.class, c.name@),
                        e.loc,
                    ).ty.wf());
                },
            }
            assert(call_rule(prog, ctx, scopes, &c, e.loc).ty.wf());
            assert(kind_rule(prog, ctx, scopes, e).ty == call_rule(prog, ctx, scopes, &c, e.loc).ty);
        },
        _ => {},
    }
}

} // verus!
