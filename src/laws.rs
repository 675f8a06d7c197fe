//! Properties that relate the resolution and execution of several nodes, or of
//! several calls, proved over the models that the functions' contracts use.

use vstd::prelude::*;
use crate::context::{lookup_binding, BindingView, CtxView};
use crate::error::ErrKind;
use crate::execute::{exec, exec_binop, exec_block, exec_if_else, exec_var, int_op};
use crate::instance::{bool_name, instance_of, TypeView, ValueView};
use crate::nodes::{BinaryOp, Block, FunctionCall, FunctionDec, IfElse, Instr, Var};
use crate::operator::Operator;
use crate::resolve::{
    bool_type, declared_args, declared_var, report, resolve, resolve_args, resolve_binop, resolve_block,
    resolve_fn_dec, resolve_if_else, resolve_seq, resolve_var, signature_of,
};
use crate::typechecker::{lookup, lookup_function, lookup_type, lookup_var, FnView, TcView, TyDeclView};

verus! {

/// Two integer operands and an operator the integer kernel defines on them: the
/// operation yields the kernel's result and records nothing. In particular the
/// arithmetic operators compute the sum, difference and product.
pub proof fn lemma_int_operation(b: BinaryOp, x: i64, y: i64, c: CtxView, p: Seq<Instr>, fuel: nat)
    requires
        exec(*b.lhs, c, p, fuel) == (Some(instance_of(ValueView::Int(x))), c),
        exec(*b.rhs, c, p, fuel) == (Some(instance_of(ValueView::Int(y))), c),
        int_op(b.op, x, y) is Some,
    ensures
        exec_binop(b, c, p, fuel) == (Some(instance_of(int_op(b.op, x, y).unwrap())), c),
        b.op == Operator::Add ==> int_op(b.op, x, y) == Some(ValueView::Int((x + y) as i64)),
        b.op == Operator::Sub ==> int_op(b.op, x, y) == Some(ValueView::Int((x - y) as i64)),
        b.op == Operator::Mul ==> int_op(b.op, x, y) == Some(ValueView::Int((x * y) as i64)),
{
}

/// Operands of two different resolved types: resolution gives `Error` and records
/// exactly one diagnostic.
pub proof fn lemma_mismatched_operands_resolve(b: BinaryOp, t: TcView, l: Seq<char>, r: Seq<char>)
    requires
        resolve(*b.lhs, t) == (TypeView::Resolved(l), t),
        resolve(*b.rhs, t) == (TypeView::Resolved(r), t),
        l != r,
    ensures
        resolve_binop(b, t) == (TypeView::Error, t.with_error(ErrKind::TypeChecker)),
{
}

/// Operands whose instances carry different types: execution yields nothing and
/// records nothing more.
pub proof fn lemma_mismatched_operands_execute(b: BinaryOp, c: CtxView, p: Seq<Instr>, fuel: nat)
    requires
        exec(*b.lhs, c, p, fuel).0 is Some,
        exec(*b.rhs, exec(*b.lhs, c, p, fuel).1, p, fuel).0 is Some,
        exec(*b.lhs, c, p, fuel).0.unwrap().ty != exec(*b.rhs, exec(*b.lhs, c, p, fuel).1, p, fuel).0.unwrap().ty,
    ensures
        exec_binop(b, c, p, fuel) == (None::<crate::instance::InstanceView>, exec(*b.rhs, exec(*b.lhs, c, p, fuel).1, p, fuel).1),
{
}

/// A true condition runs the first body; a false one runs the `else` body, and
/// without one yields nothing (recording nothing when the first body is a
/// statement).
pub proof fn lemma_if_else_selects(ie: IfElse, c: CtxView, cond: bool, p: Seq<Instr>, fuel: nat)
    requires
        exec(*ie.condition, c, p, fuel) == (Some(instance_of(ValueView::Bool(cond))), c),
    ensures
        cond ==> exec_if_else(ie, c, p, fuel) == exec_block(ie.if_body, c, p, fuel),
        !cond && ie.else_body is Some ==> exec_if_else(ie, c, p, fuel) == exec_block(ie.else_body.unwrap(), c, p, fuel),
        !cond && ie.else_body is None ==> exec_if_else(ie, c, p, fuel).0 is None,
        !cond && ie.else_body is None && ie.if_body.is_statement ==> exec_if_else(ie, c, p, fuel) == (
            None::<crate::instance::InstanceView>,
            c,
        ),
{
}

/// Bodies of two different resolved types under a boolean condition: resolution
/// records a diagnostic and gives `Error`.
pub proof fn lemma_if_else_mismatched_bodies(
    ie: IfElse,
    t: TcView,
    t1: TcView,
    t2: TcView,
    x: Seq<char>,
    y: Seq<char>,
)
    requires
        resolve(*ie.condition, t) == (bool_type(), t),
        resolve_block(ie.if_body, t) == (TypeView::Resolved(x), t1),
        ie.else_body is Some,
        resolve_block(ie.else_body.unwrap(), t1) == (TypeView::Resolved(y), t2),
        x != y,
    ensures
        resolve_if_else(ie, t) == (TypeView::Error, t2.with_error(ErrKind::TypeChecker)),
{
}

/// A variable that no scope declares: resolution gives `Error` with one
/// diagnostic, execution yields nothing with one diagnostic.
pub proof fn lemma_undeclared_var(v: Var, t: TcView, c: CtxView)
    requires
        lookup_var(t.scopes, v.name@) is None,
        lookup_binding(c.scopes, v.name@) is None,
    ensures
        resolve_var(v, t) == (TypeView::Error, t.with_error(ErrKind::TypeChecker)),
        exec_var(v, c) == (None::<crate::instance::InstanceView>, c.with_error(ErrKind::Context)),
{
}

/// A variable bound to an instance and then read back yields that instance.
pub proof fn lemma_bind_then_read(v: Var, c: CtxView, b: BindingView)
    requires
        c.scopes.len() >= 1,
        b.name == v.name@,
    ensures
        exec_var(v, c.bind(b)) == (Some(b.instance), c.bind(b)),
{
    let c1 = c.bind(b);
    assert(c1.scopes.last() == c.scopes.last().push(b));
    assert(c1.scopes.last().drop_last() =~= c.scopes.last());
}

/// Declaring a name twice in the same scope: the second declaration is refused
/// during the first pass and tolerated during the second.
pub proof fn lemma_redeclaration(t: TcView, name: Seq<char>, ty: TypeView, ty2: TypeView)
    requires
        t.scopes.len() >= 1,
    ensures
        t.add_var(name, ty).var_clash(name) == !t.second_pass,
        (TcView { second_pass: true, ..t.add_var(name, ty) }).var_clash(name) == false,
        (TcView { second_pass: true, ..t.add_var(name, ty) }).add_var(name, ty2) == (TcView {
            second_pass: true,
            ..t.add_var(name, ty)
        }),
        t.add_function(name, crate::typechecker::FnView { args: Seq::empty(), ret: ty }).function_clash(
            name,
        ) == !t.second_pass,
        t.add_type(
            name,
            crate::typechecker::TyDeclView { self_ty: ty, fields: Seq::empty() },
        ).type_clash(name) == !t.second_pass,
{
    let t1 = t.add_var(name, ty);
    assert(lookup(t1.current().vars, name) is Some);
    let t2 = t.add_function(name, crate::typechecker::FnView { args: Seq::empty(), ret: ty });
    assert(lookup(t2.current().functions, name) is Some);
    let t3 = t.add_type(name, crate::typechecker::TyDeclView { self_ty: ty, fields: Seq::empty() });
    assert(lookup(t3.current().types, name) is Some);
}

/// `t2` follows `t` in one resolution step: the pass is the same, the scopes
/// are as many and all but the innermost unchanged, and the diagnostics of `t`
/// are kept, first.
pub open spec fn frames(t: TcView, t2: TcView) -> bool {
    &&& t2.second_pass == t.second_pass
    &&& t2.scopes.len() == t.scopes.len()
    &&& t2.scopes.subrange(0, t.scopes.len() - 1) == t.scopes.subrange(0, t.scopes.len() - 1)
    &&& t.errors.len() <= t2.errors.len()
    &&& t2.errors.subrange(0, t.errors.len() as int) == t.errors
}

proof fn lemma_frames_trans(a: TcView, b: TcView, c: TcView)
    requires
        a.scopes.len() >= 1,
        frames(a, b),
        frames(b, c),
    ensures
        frames(a, c),
{
    assert(c.scopes.subrange(0, a.scopes.len() - 1) =~= b.scopes.subrange(0, a.scopes.len() - 1));
    assert(c.errors.subrange(0, a.errors.len() as int) =~= c.errors.subrange(
        0,
        b.errors.len() as int,
    ).subrange(0, a.errors.len() as int));
}

proof fn lemma_frames_small_steps(t: TcView, name: Seq<char>, ty: TypeView, k: ErrKind, cond: bool)
    requires
        t.scopes.len() >= 1,
    ensures
        frames(t, t),
        frames(t, t.with_error(k)),
        frames(t, report(t, cond)),
        frames(t, t.add_var(name, ty)),
        frames(t, declared_var(t, name, ty)),
        frames(t, t.pushed_var(name, ty)),
{
    let tp = t.pushed_var(name, ty);
    assert(tp.scopes.subrange(0, t.scopes.len() - 1) =~= t.scopes.subrange(0, t.scopes.len() - 1));
    assert(t.scopes.subrange(0, t.scopes.len() - 1) =~= t.scopes.subrange(0, t.scopes.len() - 1));
    assert(t.with_error(k).errors.subrange(0, t.errors.len() as int) =~= t.errors);
    assert(t.with_error(ErrKind::TypeChecker).errors.subrange(0, t.errors.len() as int) =~= t.errors);
    assert(t.errors.subrange(0, t.errors.len() as int) =~= t.errors);
    let t1 = t.add_var(name, ty);
    assert(t1.scopes.subrange(0, t.scopes.len() - 1) =~= t.scopes.subrange(0, t.scopes.len() - 1));
    assert(t1.with_error(ErrKind::Context).errors.subrange(0, t.errors.len() as int) =~= t.errors);
}

/// Resolving a node keeps the pass, the outer scopes and the diagnostics
/// already recorded.
pub proof fn lemma_resolve_frames(i: Instr, t: TcView)
    requires
        t.scopes.len() >= 1,
    ensures
        frames(t, resolve(i, t).1),
    decreases i,
{
    lemma_frames_small_steps(t, Seq::empty(), TypeView::Void, ErrKind::TypeChecker, false);
    match i {
        Instr::Const(_) | Instr::JkInst(_) => {},
        Instr::BinaryOp(b) => {
            lemma_resolve_frames(*b.lhs, t);
            let t1 = resolve(*b.lhs, t).1;
            lemma_resolve_frames(*b.rhs, t1);
            let t2 = resolve(*b.rhs, t1).1;
            lemma_frames_trans(t, t1, t2);
            lemma_frames_small_steps(t2, Seq::empty(), TypeView::Void, ErrKind::TypeChecker, true);
            lemma_frames_trans(t, t2, t2.with_error(ErrKind::TypeChecker));
        },
        Instr::IfElse(ie) => {
            lemma_resolve_frames(*ie.condition, t);
            let t1 = resolve(*ie.condition, t).1;
            lemma_frames_small_steps(t1, Seq::empty(), TypeView::Void, ErrKind::TypeChecker, true);
            lemma_frames_trans(t, t1, t1.with_error(ErrKind::TypeChecker));
            let c = resolve(*ie.condition, t).0;
            let t2 = report(t1, c != bool_type() && !(c is Error));
            lemma_resolve_block_frames(ie.if_body, t2);
            let t3 = resolve_block(ie.if_body, t2).1;
            lemma_frames_trans(t, t2, t3);
            lemma_frames_small_steps(t3, Seq::empty(), TypeView::Void, ErrKind::TypeChecker, true);
            lemma_frames_trans(t, t3, t3.with_error(ErrKind::TypeChecker));
            match ie.else_body {
                Some(e) => {
                    lemma_resolve_block_frames(e, t3);
                    let t4 = resolve_block(e, t3).1;
                    lemma_frames_trans(t, t3, t4);
                    lemma_frames_small_steps(t4, Seq::empty(), TypeView::Void, ErrKind::TypeChecker, true);
                    lemma_frames_trans(t, t4, t4.with_error(ErrKind::TypeChecker));
                },
                None => {},
            }
        },
        Instr::Var(_) => {},
        Instr::VarAssign(a) => {
            lemma_resolve_frames(*a.value, t);
            let (vt, t1) = resolve(*a.value, t);
            lemma_frames_small_steps(t1, a.name@, vt, ErrKind::TypeChecker, true);
            lemma_frames_trans(t, t1, t1.with_error(ErrKind::TypeChecker));
            lemma_frames_trans(t, t1, t1.add_var(a.name@, vt));
            lemma_frames_trans(t, t1, t1.pushed_var(a.name@, vt));
        },
        Instr::Block(b) => {
            lemma_resolve_block_frames(b, t);
        },
        Instr::FunctionDec(d) => {
            lemma_resolve_fn_dec_frames(d, t);
        },
        Instr::FunctionCall(c) => {
            lemma_resolve_args_frames(c.args@, t);
            let t1 = resolve_args(c.args@, t).1;
            lemma_frames_small_steps(t1, Seq::empty(), TypeView::Void, ErrKind::TypeChecker, true);
            lemma_frames_trans(t, t1, t1.with_error(ErrKind::TypeChecker));
        },
    }
}

/// A block leaves every scope as it found it.
pub proof fn lemma_resolve_block_frames(b: Block, t: TcView)
    requires
        t.scopes.len() >= 1,
    ensures
        frames(t, resolve_block(b, t).1),
        resolve_block(b, t).1.scopes == t.scopes,
    decreases b,
{
    let te = t.entered();
    lemma_resolve_seq_frames(b.instructions@, te);
    let t1 = resolve_seq(b.instructions@, te).1;
    assert(t1.scopes.subrange(0, t.scopes.len() as int) == te.scopes.subrange(0, t.scopes.len() as int));
    assert(te.scopes.subrange(0, t.scopes.len() as int) =~= t.scopes);
    assert(t1.exited().scopes =~= t.scopes);
    assert(t.scopes.subrange(0, t.scopes.len() - 1) =~= t.scopes.subrange(0, t.scopes.len() - 1));
}

proof fn lemma_resolve_seq_frames(s: Seq<Instr>, t: TcView)
    requires
        t.scopes.len() >= 1,
    ensures
        frames(t, resolve_seq(s, t).1),
    decreases s,
{
    lemma_frames_small_steps(t, Seq::empty(), TypeView::Void, ErrKind::TypeChecker, false);
    if s.len() > 0 {
        lemma_resolve_seq_frames(s.subrange(0, s.len() - 1), t);
        let t1 = resolve_seq(s.subrange(0, s.len() - 1), t).1;
        lemma_resolve_frames(s[s.len() - 1], t1);
        lemma_frames_trans(t, t1, resolve(s[s.len() - 1], t1).1);
    }
}

proof fn lemma_resolve_args_frames(s: Seq<Instr>, t: TcView)
    requires
        t.scopes.len() >= 1,
    ensures
        frames(t, resolve_args(s, t).1),
    decreases s,
{
    lemma_frames_small_steps(t, Seq::empty(), TypeView::Void, ErrKind::TypeChecker, false);
    if s.len() > 0 {
        lemma_resolve_args_frames(s.subrange(0, s.len() - 1), t);
        let t1 = resolve_args(s.subrange(0, s.len() - 1), t).1;
        lemma_resolve_frames(s[s.len() - 1], t1);
        lemma_frames_trans(t, t1, resolve(s[s.len() - 1], t1).1);
    }
}

proof fn lemma_declared_args_frames(t: TcView, args: Seq<(Seq<char>, TypeView)>)
    requires
        t.scopes.len() >= 1,
    ensures
        frames(t, declared_args(t, args)),
    decreases args.len(),
{
    lemma_frames_small_steps(t, Seq::empty(), TypeView::Void, ErrKind::TypeChecker, false);
    if args.len() > 0 {
        lemma_declared_args_frames(t, args.drop_last());
        let t1 = declared_args(t, args.drop_last());
        lemma_frames_small_steps(t1, args.last().0, args.last().1, ErrKind::Context, false);
        lemma_frames_trans(t, t1, declared_var(t1, args.last().0, args.last().1));
    }
}

proof fn lemma_resolve_fn_dec_frames(d: FunctionDec, t: TcView)
    requires
        t.scopes.len() >= 1,
    ensures
        frames(t, resolve_fn_dec(d, t).1),
        resolve_fn_dec(d, t).1.scopes == t.add_function(d.name@, signature_of(d)).scopes,
    decreases d,
{
    let f = signature_of(d);
    let ta = t.add_function(d.name@, f);
    let t1 = if t.function_clash(d.name@) { ta.with_error(ErrKind::Context) } else { ta };
    assert(ta.scopes.subrange(0, t.scopes.len() - 1) =~= t.scopes.subrange(0, t.scopes.len() - 1));
    assert(ta.with_error(ErrKind::Context).errors.subrange(0, t.errors.len() as int) =~= t.errors);
    assert(t.errors.subrange(0, t.errors.len() as int) =~= t.errors);
    assert(frames(t, t1));
    let te = t1.entered();
    lemma_declared_args_frames(te, f.args);
    let t2 = declared_args(te, f.args);
    lemma_resolve_block_frames(d.body, t2);
    let t3 = resolve_block(d.body, t2).1;
    lemma_frames_trans(te, t2, t3);
    assert(t3.scopes.subrange(0, t1.scopes.len() as int) == te.scopes.subrange(0, t1.scopes.len() as int));
    assert(te.scopes.subrange(0, t1.scopes.len() as int) =~= t1.scopes);
    let t4 = t3.exited();
    assert(t4.scopes =~= t1.scopes);
    assert(t4.errors.subrange(0, t1.errors.len() as int) =~= t3.errors.subrange(0, te.errors.len() as int));
    lemma_frames_small_steps(t4, Seq::empty(), TypeView::Void, ErrKind::TypeChecker, true);
    assert(frames(t1, t4)) by {
        assert(t4.scopes.subrange(0, t1.scopes.len() - 1) =~= t1.scopes.subrange(0, t1.scopes.len() - 1));
    }
    lemma_frames_trans(t, t1, t4);
    lemma_frames_trans(t, t4, t4.with_error(ErrKind::TypeChecker));
}

/// A condition that resolves to a type other than the boolean one records a
/// type-checker diagnostic.
pub proof fn lemma_non_boolean_condition(ie: IfElse, t: TcView, n: Seq<char>)
    requires
        t.scopes.len() >= 1,
        resolve(*ie.condition, t).0 == TypeView::Resolved(n),
        n != bool_name(),
    ensures
        resolve_if_else(ie, t).1.errors.len() > resolve(*ie.condition, t).1.errors.len(),
        resolve_if_else(ie, t).1.errors[resolve(*ie.condition, t).1.errors.len() as int]
            == ErrKind::TypeChecker,
{
    lemma_resolve_frames(*ie.condition, t);
    let t1 = resolve(*ie.condition, t).1;
    let t2 = t1.with_error(ErrKind::TypeChecker);
    lemma_resolve_block_frames(ie.if_body, t2);
    let t3 = resolve_block(ie.if_body, t2).1;
    lemma_frames_small_steps(t3, Seq::empty(), TypeView::Void, ErrKind::TypeChecker, true);
    lemma_frames_trans(t2, t3, t3.with_error(ErrKind::TypeChecker));
    assert(t3.errors[t1.errors.len() as int] == t3.errors.subrange(0, t2.errors.len() as int)[t1.errors.len() as int]);
    match ie.else_body {
        Some(e) => {
            lemma_resolve_block_frames(e, t3);
            let t4 = resolve_block(e, t3).1;
            lemma_frames_trans(t2, t3, t4);
            lemma_frames_small_steps(t4, Seq::empty(), TypeView::Void, ErrKind::TypeChecker, true);
            lemma_frames_trans(t2, t4, t4.with_error(ErrKind::TypeChecker));
            let r = resolve_if_else(ie, t).1;
            assert(r.errors[t1.errors.len() as int] == r.errors.subrange(0, t2.errors.len() as int)[t1.errors.len() as int]);
        },
        None => {
            let r = resolve_if_else(ie, t).1;
            assert(r.errors[t1.errors.len() as int] == r.errors.subrange(0, t2.errors.len() as int)[t1.errors.len() as int]);
        },
    }
}

/// A function called before its declaration: the first pass defers the call
/// without a diagnostic, and once the first pass has met the declaration, the
/// second pass gives the call the declared return type, again without a
/// diagnostic. A function declared nowhere is an error in the second pass.
pub proof fn lemma_forward_reference(c: FunctionCall, d: FunctionDec, t: TcView)
    requires
        t.scopes.len() >= 1,
        !t.second_pass,
        c.name@ == d.name@,
        c.args@.len() == 0,
        d.args@.len() == 0,
        lookup_function(t.scopes, c.name@) is None,
    ensures
        resolve(Instr::FunctionCall(c), t) == (TypeView::Later, t),
        ({
            let t1 = resolve(Instr::FunctionDec(d), t).1;
            let t2 = TcView { second_pass: true, ..t1 };
            resolve(Instr::FunctionCall(c), t2) == (signature_of(d).ret, t2)
        }),
        ({
            let t2 = TcView { second_pass: true, ..t };
            resolve(Instr::FunctionCall(c), t2) == (TypeView::Error, t2.with_error(ErrKind::TypeChecker))
        }),
{
    lemma_resolve_fn_dec_frames(d, t);
    let f = signature_of(d);
    let t1 = resolve(Instr::FunctionDec(d), t).1;
    let t2 = TcView { second_pass: true, ..t1 };
    assert(lookup(t.current().functions, d.name@) is None);
    let ta = t.add_function(d.name@, f);
    assert(ta.current().functions == t.current().functions.push((d.name@, f)));
    assert(lookup(ta.current().functions, d.name@) == Some(f));
    assert(t2.scopes == ta.scopes);
    assert(lookup_function(t2.scopes, c.name@) == Some(f));
    assert(f.args =~= Seq::<(Seq<char>, TypeView)>::empty());
    assert(c.args@.subrange(0, 0) =~= c.args@);
    assert(resolve_args(c.args@, t2) == (Seq::<TypeView>::empty(), t2));
}

/// A function or custom type that the first pass declared in a scope, where the
/// name was new, is found in the second pass from a scope nested in it.
pub proof fn lemma_first_pass_declaration_visible(t: TcView, name: Seq<char>, f: FnView, d: TyDeclView)
    requires
        t.scopes.len() >= 1,
    ensures
        lookup(t.current().functions, name) is None ==> lookup_function(
            (TcView { second_pass: true, ..t.add_function(name, f) }).entered().scopes,
            name,
        ) == Some(f),
        lookup(t.current().types, name) is None ==> lookup_type(
            (TcView { second_pass: true, ..t.add_type(name, d) }).entered().scopes,
            name,
        ) == Some(d),
{
    if lookup(t.current().functions, name) is None {
        let t1 = TcView { second_pass: true, ..t.add_function(name, f) };
        let s = t1.entered().scopes;
        assert(s.drop_last() =~= t1.scopes);
        assert(lookup(s.last().functions, name) is None);
        assert(t1.scopes.last().functions == t.current().functions.push((name, f)));
        assert(lookup(t1.scopes.last().functions, name) == Some(f));
        assert(lookup_function(t1.scopes, name) == Some(f));
        assert(lookup_function(s, name) == lookup_function(s.drop_last(), name));
    }
    if lookup(t.current().types, name) is None {
        let t1 = TcView { second_pass: true, ..t.add_type(name, d) };
        let s = t1.entered().scopes;
        assert(s.drop_last() =~= t1.scopes);
        assert(lookup(s.last().types, name) is None);
        assert(t1.scopes.last().types == t.current().types.push((name, d)));
        assert(lookup(t1.scopes.last().types, name) == Some(d));
        assert(lookup_type(t1.scopes, name) == Some(d));
        assert(lookup_type(s, name) == lookup_type(s.drop_last(), name));
    }
}

} // verus!
