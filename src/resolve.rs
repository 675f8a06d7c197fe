//! Static type resolution of the tree against a [`TypeCtx`].
//!
//! Resolution is stated as a function from a node and a context model to the
//! node's type and the context model afterwards. A name used before the first
//! pass has reached its declaration resolves to `Later`; an `Error` type means a
//! diagnostic was already recorded, and suppresses further ones.

use vstd::prelude::*;
use crate::error::{ErrKind, Error};
use crate::instance::{is_marker, bool_name, type_name_of, CheckedType, TypeView};
use crate::nodes::{BinaryOp, Block, FunctionCall, FunctionDec, IfElse, Instr, JkInst, Var, VarAssign};
use crate::typechecker::{
    lookup, lookup_function, lookup_var, named_view, FnView, NamedTypes, TcView, TypeCtx,
};

verus! {

/// The primitive boolean type.
pub open spec fn bool_type() -> TypeView {
    TypeView::Resolved(bool_name())
}

/// The context with one more type-checker diagnostic when `cond` holds.
pub open spec fn report(t: TcView, cond: bool) -> TcView {
    if cond {
        t.with_error(ErrKind::TypeChecker)
    } else {
        t
    }
}

/// Two types that must agree: the common type, or a marker, and whether a
/// mismatch is to be reported. A reported error is never reported again; a
/// deferred type stays deferred until the second pass.
pub open spec fn unify(l: TypeView, r: TypeView, second_pass: bool) -> (TypeView, bool) {
    if l is Error || r is Error {
        (TypeView::Error, false)
    } else if (l is Later || r is Later) && !second_pass {
        (TypeView::Later, false)
    } else if l != r {
        (TypeView::Error, true)
    } else {
        (l, false)
    }
}

/// The type of a conditional without an `else` body, from its first body's type.
pub open spec fn lone_if(it: TypeView, second_pass: bool) -> (TypeView, bool) {
    if it is Void {
        (TypeView::Void, false)
    } else if it is Error {
        (TypeView::Error, false)
    } else if it is Later && !second_pass {
        (TypeView::Later, false)
    } else {
        (TypeView::Error, true)
    }
}

/// The context after declaring variable `name`, with a diagnostic when the
/// declaration is refused.
pub open spec fn declared_var(t: TcView, name: Seq<char>, ty: TypeView) -> TcView {
    if t.var_clash(name) {
        t.add_var(name, ty).with_error(ErrKind::Context)
    } else {
        t.add_var(name, ty)
    }
}

/// The context after declaring each of `args` as a variable, in order.
pub open spec fn declared_args(t: TcView, args: Seq<(Seq<char>, TypeView)>) -> TcView
    decreases args.len(),
{
    if args.len() == 0 {
        t
    } else {
        declared_var(declared_args(t, args.drop_last()), args.last().0, args.last().1)
    }
}

/// The signature a function declaration gives: each argument with its resolved
/// type, and the return type, `Void` when none is written.
pub open spec fn signature_of(d: FunctionDec) -> FnView {
    FnView {
        args: d.args@.map_values(
            |p: (String, crate::instance::TypeId)| (p.0@, TypeView::Resolved(p.1@)),
        ),
        ret: match d.return_ty {
            Some(t) => TypeView::Resolved(t@),
            None => TypeView::Void,
        },
    }
}

/// Whether some argument's type, when not a marker, differs from the declared one.
pub open spec fn args_mismatch(tys: Seq<TypeView>, decl: Seq<(Seq<char>, TypeView)>) -> bool {
    exists|k: int| 0 <= k < tys.len() && !is_marker(tys[k]) && tys[k] != decl[k].1
}

/// The type of a node and the context after resolving it.
pub open spec fn resolve(i: Instr, t: TcView) -> (TypeView, TcView)
    decreases i,
{
    match i {
        Instr::Const(v) => (TypeView::Resolved(type_name_of(v@)), t),
        Instr::BinaryOp(b) => resolve_binop(b, t),
        Instr::IfElse(ie) => resolve_if_else(ie, t),
        Instr::Var(v) => resolve_var(v, t),
        Instr::VarAssign(a) => resolve_assign(a, t),
        Instr::Block(b) => resolve_block(b, t),
        Instr::FunctionDec(d) => resolve_fn_dec(d, t),
        Instr::FunctionCall(c) => resolve_call(c, t),
        Instr::JkInst(_) => (TypeView::Void, t),
    }
}

/// Both operands are resolved, left first, and must have the same type.
pub open spec fn resolve_binop(b: BinaryOp, t: TcView) -> (TypeView, TcView)
    decreases b,
{
    let (l, t1) = resolve(*b.lhs, t);
    let (r, t2) = resolve(*b.rhs, t1);
    let o = unify(l, r, t2.second_pass);
    (o.0, report(t2, o.1))
}

/// The condition must be a boolean; the bodies must agree, and without an `else`
/// body the first one must produce no value.
pub open spec fn resolve_if_else(ie: IfElse, t: TcView) -> (TypeView, TcView)
    decreases ie,
{
    let (c, t1) = resolve(*ie.condition, t);
    if c is Later && !t1.second_pass {
        (TypeView::Later, t1)
    } else {
        let t2 = report(t1, c != bool_type() && !(c is Error));
        let (it, t3) = resolve_block(ie.if_body, t2);
        match ie.else_body {
            None => {
                let o = lone_if(it, t3.second_pass);
                (o.0, report(t3, o.1))
            },
            Some(e) => {
                let (et, t4) = resolve_block(e, t3);
                let o = unify(it, et, t4.second_pass);
                (o.0, report(t4, o.1))
            },
        }
    }
}

/// A variable has its declared type; an undeclared one is an error.
pub open spec fn resolve_var(v: Var, t: TcView) -> (TypeView, TcView) {
    match lookup_var(t.scopes, v.name@) {
        Some(ty) => (ty, t),
        None => (TypeView::Error, t.with_error(ErrKind::TypeChecker)),
    }
}

/// The first binding of a name declares it with the value's type; a later one must
/// keep that type. A binding of the innermost scope whose type was deferred takes
/// the value's type once that is known.
pub open spec fn resolve_assign(a: VarAssign, t: TcView) -> (TypeView, TcView)
    decreases a,
{
    let (vt, t1) = resolve(*a.value, t);
    match lookup_var(t1.scopes, a.name@) {
        Some(prev) => if prev is Later && !is_marker(vt) && lookup(t1.current().vars, a.name@) is Some {
            (TypeView::Void, t1.pushed_var(a.name@, vt))
        } else {
            (TypeView::Void, report(t1, !is_marker(prev) && !is_marker(vt) && prev != vt))
        },
        None => (TypeView::Void, t1.add_var(a.name@, vt)),
    }
}

/// A block resolves its instructions in order in a scope of its own.
pub open spec fn resolve_block(b: Block, t: TcView) -> (TypeView, TcView)
    decreases b,
{
    let (last, t1) = resolve_seq(b.instructions@, t.entered());
    (if b.is_statement { TypeView::Void } else { last }, t1.exited())
}

/// The type of the last of a sequence of instructions (`Void` when empty), and the
/// context after resolving them all in order.
pub open spec fn resolve_seq(s: Seq<Instr>, t: TcView) -> (TypeView, TcView)
    decreases s,
{
    if s.len() == 0 {
        (TypeView::Void, t)
    } else {
        let (_, t1) = resolve_seq(s.subrange(0, s.len() - 1), t);
        resolve(s[s.len() - 1], t1)
    }
}

/// The types of a sequence of arguments, resolved in order.
pub open spec fn resolve_args(s: Seq<Instr>, t: TcView) -> (Seq<TypeView>, TcView)
    decreases s,
{
    if s.len() == 0 {
        (Seq::empty(), t)
    } else {
        let (tys, t1) = resolve_args(s.subrange(0, s.len() - 1), t);
        let (ty, t2) = resolve(s[s.len() - 1], t1);
        (tys.push(ty), t2)
    }
}

/// A declaration registers the function, then resolves its body with the
/// arguments declared, in a scope of its own; the body must have the return type.
pub open spec fn resolve_fn_dec(d: FunctionDec, t: TcView) -> (TypeView, TcView)
    decreases d,
{
    let f = signature_of(d);
    let t1 = if t.function_clash(d.name@) {
        t.add_function(d.name@, f).with_error(ErrKind::Context)
    } else {
        t.add_function(d.name@, f)
    };
    let t2 = declared_args(t1.entered(), f.args);
    let (bt, t3) = resolve_block(d.body, t2);
    (TypeView::Void, report(t3.exited(), !is_marker(bt) && bt != f.ret))
}

/// A call has the callee's return type, once its arguments match the declared
/// ones. A callee not declared yet is deferred during the first pass and an error
/// during the second.
pub open spec fn resolve_call(c: FunctionCall, t: TcView) -> (TypeView, TcView)
    decreases c,
{
    match lookup_function(t.scopes, c.name@) {
        None => if t.second_pass {
            (TypeView::Error, t.with_error(ErrKind::TypeChecker))
        } else {
            (TypeView::Later, t)
        },
        Some(f) => {
            let (tys, t1) = resolve_args(c.args@, t);
            if tys.len() != f.args.len() || args_mismatch(tys, f.args) {
                (TypeView::Error, t1.with_error(ErrKind::TypeChecker))
            } else {
                (f.ret, t1)
            }
        },
    }
}

/// Records a type-checker diagnostic made of `text` followed by `name`.
fn type_error(ctx: &mut TypeCtx, text: &str, name: &str)
    requires
        old(ctx).wf(),
    ensures
        final(ctx).wf(),
        final(ctx)@ == old(ctx)@.with_error(ErrKind::TypeChecker),
{
    ctx.error(Error::new(ErrKind::TypeChecker).with_msg(crate::error::message_with(text, name)));
}

/// Executable counterpart of [`unify`].
fn unify_types(l: CheckedType, r: CheckedType, second_pass: bool) -> (o: (CheckedType, bool))
    ensures
        (o.0@, o.1) == unify(l@, r@, second_pass),
{
    if l.is_error() || r.is_error() {
        (CheckedType::Error, false)
    } else if (l.is_later() || r.is_later()) && !second_pass {
        (CheckedType::Later, false)
    } else if !l.eq(&r) {
        (CheckedType::Error, true)
    } else {
        (l, false)
    }
}

impl Instr {
    /// Resolves the node's type, recording diagnostics in `ctx`.
    pub fn resolve_type(&self, ctx: &mut TypeCtx) -> (r: CheckedType)
        requires
            old(ctx).wf(),
        ensures
            final(ctx).wf(),
            (r@, final(ctx)@) == resolve(*self, old(ctx)@),
        decreases self,
    {
        match self {
            Instr::Const(v) => v.type_of(),
            Instr::BinaryOp(b) => b.resolve_type(ctx),
            Instr::IfElse(ie) => ie.resolve_type(ctx),
            Instr::Var(v) => v.resolve_type(ctx),
            Instr::VarAssign(a) => a.resolve_type(ctx),
            Instr::Block(b) => b.resolve_type(ctx),
            Instr::FunctionDec(d) => d.resolve_type(ctx),
            Instr::FunctionCall(c) => c.resolve_type(ctx),
            Instr::JkInst(j) => j.resolve_type(ctx),
        }
    }
}

impl BinaryOp {
    /// Resolves both operands; they must have the same type, which is the result.
    pub fn resolve_type(&self, ctx: &mut TypeCtx) -> (r: CheckedType)
        requires
            old(ctx).wf(),
        ensures
            final(ctx).wf(),
            (r@, final(ctx)@) == resolve_binop(*self, old(ctx)@),
        decreases self,
    {
        let l = self.lhs.resolve_type(ctx);
        let r = self.rhs.resolve_type(ctx);
        let o = unify_types(l, r, ctx.is_second_pass());
        if o.1 {
            type_error(ctx, "trying to do binary operation on invalid types: ", self.op.as_str());
        }
        o.0
    }
}

impl IfElse {
    /// Resolves the condition, which must be a boolean, and the bodies, which must
    /// agree.
    pub fn resolve_type(&self, ctx: &mut TypeCtx) -> (r: CheckedType)
        requires
            old(ctx).wf(),
        ensures
            final(ctx).wf(),
            (r@, final(ctx)@) == resolve_if_else(*self, old(ctx)@),
        decreases self,
    {
        let c = self.condition.resolve_type(ctx);
        if c.is_later() && !ctx.is_second_pass() {
            return CheckedType::Later;
        }
        let b = CheckedType::boolean();
        if !c.eq(&b) && !c.is_error() {
            type_error(ctx, "if condition should be a boolean, not a ", c.name());
        }
        let it = self.if_body.resolve_type(ctx);
        match &self.else_body {
            None => {
                let sp = ctx.is_second_pass();
                if it.is_void() {
                    CheckedType::Void
                } else if it.is_error() {
                    CheckedType::Error
                } else if it.is_later() && !sp {
                    CheckedType::Later
                } else {
                    type_error(ctx, "`if` block has a return type but no else block: ", it.name());
                    CheckedType::Error
                }
            },
            Some(e) => {
                let et = e.resolve_type(ctx);
                let o = unify_types(it, et, ctx.is_second_pass());
                if o.1 {
                    type_error(ctx, "incompatible types for `if` and `else` block", "");
                }
                o.0
            },
        }
    }
}

impl Var {
    /// The variable's declared type; an undeclared variable is an error.
    pub fn resolve_type(&self, ctx: &mut TypeCtx) -> (r: CheckedType)
        requires
            old(ctx).wf(),
        ensures
            final(ctx).wf(),
            (r@, final(ctx)@) == resolve_var(*self, old(ctx)@),
    {
        match ctx.get_var(self.name()) {
            Some(t) => t.copy(),
            None => {
                type_error(ctx, "use of undeclared variable: ", self.name());
                CheckedType::Error
            },
        }
    }
}

impl VarAssign {
    /// Resolves the value; a new name is declared with its type, a known one must
    /// keep its type.
    pub fn resolve_type(&self, ctx: &mut TypeCtx) -> (r: CheckedType)
        requires
            old(ctx).wf(),
        ensures
            final(ctx).wf(),
            (r@, final(ctx)@) == resolve_assign(*self, old(ctx)@),
        decreases self,
    {
        let vt = self.value.resolve_type(ctx);
        let prev = match ctx.get_var(self.name.as_str()) {
            Some(t) => Some(t.copy()),
            None => None,
        };
        match prev {
            Some(p) => {
                if p.is_later() && !vt.is_later() && !vt.is_error() && ctx.is_local_var(self.name.as_str()) {
                    ctx.refine_var(self.name.clone(), vt);
                } else if !p.is_later() && !p.is_error() && !vt.is_later() && !vt.is_error() && !p.eq(&vt) {
                    type_error(ctx, "variable assigned a value of another type: ", self.name.as_str());
                }
            },
            None => {
                let _ = ctx.declare_var(self.name.clone(), vt);
            },
        }
        CheckedType::Void
    }
}

impl Block {
    /// Resolves the instructions in order, in a scope of their own.
    pub fn resolve_type(&self, ctx: &mut TypeCtx) -> (r: CheckedType)
        requires
            old(ctx).wf(),
        ensures
            final(ctx).wf(),
            (r@, final(ctx)@) == resolve_block(*self, old(ctx)@),
        decreases self,
    {
        ctx.scope_enter();
        let ghost t0 = ctx@;
        let mut last = CheckedType::Void;
        let mut i: usize = 0;
        let n = self.instructions.len();
        while i < n
            invariant
                n == self.instructions@.len(),
                i <= n,
                ctx.wf(),
                (last@, ctx@) == resolve_seq(self.instructions@.subrange(0, i as int), t0),
            decreases n - i,
        {
            proof {
                assert(self.instructions@.subrange(0, i + 1).subrange(0, i as int)
                    =~= self.instructions@.subrange(0, i as int));
            }
            last = self.instructions[i].resolve_type(ctx);
            i = i + 1;
        }
        assert(self.instructions@.subrange(0, n as int) =~= self.instructions@);
        ctx.scope_exit();
        if self.is_statement {
            CheckedType::Void
        } else {
            last
        }
    }
}

impl FunctionDec {
    /// The signature's argument list, each argument with its resolved type.
    fn signature_args(&self) -> (r: NamedTypes)
        ensures
            named_view(r@) == signature_of(*self).args,
    {
        let mut r: NamedTypes = Vec::new();
        let mut i: usize = 0;
        while i < self.args.len()
            invariant
                i <= self.args@.len(),
                named_view(r@) == signature_of(*self).args.subrange(0, i as int),
            decreases self.args@.len() - i,
        {
            let (name, ty) = &self.args[i];
            let entry = (name.clone(), CheckedType::Resolved(ty.copy()));
            let ghost before = r@;
            r.push(entry);
            proof {
                assert(named_view(r@) =~= named_view(before).push((entry.0@, entry.1@)));
                assert(signature_of(*self).args.subrange(0, i + 1) =~= signature_of(*self).args.subrange(
                    0,
                    i as int,
                ).push((entry.0@, entry.1@)));
            }
            i = i + 1;
        }
        assert(signature_of(*self).args.subrange(0, i as int) =~= signature_of(*self).args);
        r
    }

    /// The declared return type, `Void` when none is written.
    fn signature_ret(&self) -> (r: CheckedType)
        ensures
            r@ == signature_of(*self).ret,
    {
        match &self.return_ty {
            Some(t) => CheckedType::Resolved(t.copy()),
            None => CheckedType::Void,
        }
    }

    /// Registers the function, then resolves its body with the arguments declared;
    /// the body must have the return type.
    pub fn resolve_type(&self, ctx: &mut TypeCtx) -> (r: CheckedType)
        requires
            old(ctx).wf(),
        ensures
            final(ctx).wf(),
            (r@, final(ctx)@) == resolve_fn_dec(*self, old(ctx)@),
        decreases self,
    {
        let ghost f = signature_of(*self);
        let args = self.signature_args();
        if let Err(e) = ctx.declare_function(self.name.clone(), args, self.signature_ret()) {
            ctx.error(e);
        }
        ctx.scope_enter();
        let ghost t1 = ctx@;
        let args = self.signature_args();
        let mut i: usize = 0;
        while i < args.len()
            invariant
                i <= args@.len(),
                named_view(args@) == f.args,
                ctx.wf(),
                ctx@ == declared_args(t1, f.args.subrange(0, i as int)),
            decreases args@.len() - i,
        {
            proof {
                assert(f.args.subrange(0, i + 1).drop_last() =~= f.args.subrange(0, i as int));
            }
            let (name, ty) = &args[i];
            if let Err(e) = ctx.declare_var(name.clone(), ty.copy()) {
                ctx.error(e);
            }
            i = i + 1;
        }
        assert(f.args.subrange(0, i as int) =~= f.args);
        let bt = self.body.resolve_type(ctx);
        ctx.scope_exit();
        let ret = self.signature_ret();
        if !bt.is_later() && !bt.is_error() && !bt.eq(&ret) {
            type_error(ctx, "function body does not have the return type: ", self.name.as_str());
        }
        CheckedType::Void
    }
}

impl FunctionCall {
    /// The callee's return type, once the arguments match its declaration.
    pub fn resolve_type(&self, ctx: &mut TypeCtx) -> (r: CheckedType)
        requires
            old(ctx).wf(),
        ensures
            final(ctx).wf(),
            (r@, final(ctx)@) == resolve_call(*self, old(ctx)@),
        decreases self,
    {
        let ghost lf = lookup_function(ctx@.scopes, self.name@);
        let found = match ctx.get_function(self.name.as_str()) {
            Some((args, ret)) => {
                let mut decl: Vec<CheckedType> = Vec::new();
                let mut k: usize = 0;
                while k < args.len()
                    invariant
                        k <= args@.len(),
                        decl@.len() == k,
                        forall|j: int| 0 <= j < k ==> decl@[j]@ == args@[j].1@,
                    decreases args@.len() - k,
                {
                    decl.push(args[k].1.copy());
                    k = k + 1;
                }
                proof {
                    assert forall|j: int| 0 <= j < decl@.len() implies decl@[j]@ == lf.unwrap().args[j].1 by {
                        assert(named_view(args@)[j] == (args@[j].0@, args@[j].1@));
                    }
                }
                Some((decl, ret.copy()))
            },
            None => None,
        };
        assert(found is None <==> lf is None);
        assert(found matches Some((decl, ret)) ==> ret@ == lf.unwrap().ret && decl@.len()
            == lf.unwrap().args.len() && forall|j: int| 0 <= j < decl@.len() ==> decl@[j]@
            == lf.unwrap().args[j].1);
        match found {
            None => {
                if ctx.is_second_pass() {
                    type_error(ctx, "call of undeclared function: ", self.name.as_str());
                    CheckedType::Error
                } else {
                    CheckedType::Later
                }
            },
            Some((decl, ret)) => {
                let ghost fv = lookup_function(old(ctx)@.scopes, self.name@).unwrap();
                let ghost t0 = ctx@;
                let mut tys: Vec<CheckedType> = Vec::new();
                let mut i: usize = 0;
                let n = self.args.len();
                while i < n
                    invariant
                        n == self.args@.len(),
                        i <= n,
                        ctx.wf(),
                        (tys@.map_values(|t: CheckedType| t@), ctx@) == resolve_args(
                            self.args@.subrange(0, i as int),
                            t0,
                        ),
                    decreases n - i,
                {
                    proof {
                        assert(self.args@.subrange(0, i + 1).subrange(0, i as int)
                            =~= self.args@.subrange(0, i as int));
                    }
                    let ty = self.args[i].resolve_type(ctx);
                    let ghost before = tys@;
                    tys.push(ty);
                    proof {
                        assert(tys@.map_values(|t: CheckedType| t@) =~= before.map_values(
                            |t: CheckedType| t@,
                        ).push(ty@));
                    }
                    i = i + 1;
                }
                assert(self.args@.subrange(0, n as int) =~= self.args@);
                let ghost tv = tys@.map_values(|t: CheckedType| t@);
                let mut bad = tys.len() != decl.len();
                if !bad {
                    let mut k: usize = 0;
                    while k < tys.len() && !bad
                        invariant
                            k <= tys@.len(),
                            tys@.len() == decl@.len(),
                            decl@.len() == fv.args.len(),
                            forall|j: int| 0 <= j < decl@.len() ==> decl@[j]@ == fv.args[j].1,
                            tv == tys@.map_values(|t: CheckedType| t@),
                            bad ==> args_mismatch(tv, fv.args),
                            !bad ==> forall|j: int| 0 <= j < k ==> !(!is_marker(tv[j]) && tv[j] != fv.args[j].1),
                        decreases tys@.len() - k,
                    {
                        let t = &tys[k];
                        if !t.is_later() && !t.is_error() && !t.eq(&decl[k]) {
                            bad = true;
                            assert(!is_marker(tv[k as int]) && tv[k as int] != fv.args[k as int].1);
                        }
                        k = k + 1;
                    }
                }
                if bad {
                    type_error(ctx, "invalid arguments in call of: ", self.name.as_str());
                    CheckedType::Error
                } else {
                    ret
                }
            },
        }
    }
}

impl JkInst {
    /// Directives have no type.
    pub fn resolve_type(&self, ctx: &mut TypeCtx) -> (r: CheckedType)
        requires
            old(ctx).wf(),
        ensures
            final(ctx)@ == old(ctx)@,
            final(ctx).wf(),
            r@ is Void,
    {
        CheckedType::Void
    }
}

/// The context after resolving a whole program: a first pass over its
/// instructions, then a second pass over the same instructions.
pub open spec fn check_program_spec(p: Seq<Instr>, t: TcView) -> TcView {
    let t1 = resolve_seq(p, t).1;
    resolve_seq(p, TcView { second_pass: true, ..t1 }).1
}

/// Resolves a sequence of instructions in order, in the current scope.
pub fn resolve_all(program: &Vec<Instr>, ctx: &mut TypeCtx) -> (r: CheckedType)
    requires
        old(ctx).wf(),
    ensures
        final(ctx).wf(),
        (r@, final(ctx)@) == resolve_seq(program@, old(ctx)@),
{
    let ghost t0 = ctx@;
    let mut last = CheckedType::Void;
    let mut i: usize = 0;
    let n = program.len();
    while i < n
        invariant
            n == program@.len(),
            i <= n,
            ctx.wf(),
            (last@, ctx@) == resolve_seq(program@.subrange(0, i as int), t0),
        decreases n - i,
    {
        proof {
            assert(program@.subrange(0, i + 1).subrange(0, i as int) =~= program@.subrange(0, i as int));
        }
        last = program[i].resolve_type(ctx);
        i = i + 1;
    }
    assert(program@.subrange(0, n as int) =~= program@);
    last
}

/// Type-checks a program in two passes: the first declares what it meets and
/// defers what it has not met yet, the second resolves again with every
/// declaration known. Returns whether no diagnostic was recorded.
pub fn check_program(program: &Vec<Instr>, ctx: &mut TypeCtx) -> (r: bool)
    requires
        old(ctx).wf(),
    ensures
        final(ctx).wf(),
        final(ctx)@ == check_program_spec(program@, old(ctx)@),
        r == (final(ctx)@.errors.len() == 0),
{
    resolve_all(program, ctx);
    ctx.start_second_pass();
    resolve_all(program, ctx);
    !ctx.has_errors()
}

/// Static type resolution of a node.
pub trait TypeCheck {
    /// The node's type, and the context after resolving it from `t`.
    spec fn resolution(&self, t: TcView) -> (TypeView, TcView);

    /// Resolves the node's type, recording diagnostics in `ctx`.
    fn resolve_type(&self, ctx: &mut TypeCtx) -> (r: CheckedType)
        requires
            old(ctx).wf(),
        ensures
            final(ctx).wf(),
            (r@, final(ctx)@) == self.resolution(old(ctx)@),
    ;
}

/// Nodes that keep the type they resolved to, so that resolving them again
/// costs nothing. A deferred type is never kept as final: it is resolved again.
pub trait CachedTypeCheck: TypeCheck {
    /// The stored type, if any.
    spec fn cached(&self) -> Option<CheckedType>;

    /// Stores a resolved type; the node resolves as before.
    fn set_cached_type(&mut self, ty: CheckedType)
        ensures
            final(self).cached() == Some(ty),
            forall|t: TcView| #[trigger] final(self).resolution(t) == old(self).resolution(t),
    ;

    /// The stored type, if any.
    fn cached_type(&self) -> (r: Option<&CheckedType>)
        ensures
            match r {
                Some(c) => self.cached() == Some(*c),
                None => self.cached() is None,
            },
    ;

    /// The stored type when there is one that is not deferred; otherwise the
    /// resolved type, which is then stored.
    fn type_check(&mut self, ctx: &mut TypeCtx) -> (r: CheckedType)
        requires
            old(ctx).wf(),
        ensures
            final(ctx).wf(),
            (r@, final(ctx)@) == cached_or(old(self).cached(), old(self).resolution(old(ctx)@), old(ctx)@),
            final(self).cached() matches Some(c) && c@ == r@,
    ;
}

impl TypeCheck for Instr {
    open spec fn resolution(&self, t: TcView) -> (TypeView, TcView) {
        resolve(*self, t)
    }

    fn resolve_type(&self, ctx: &mut TypeCtx) -> (r: CheckedType) {
        Instr::resolve_type(self, ctx)
    }
}

impl TypeCheck for IfElse {
    open spec fn resolution(&self, t: TcView) -> (TypeView, TcView) {
        resolve_if_else(*self, t)
    }

    fn resolve_type(&self, ctx: &mut TypeCtx) -> (r: CheckedType) {
        IfElse::resolve_type(self, ctx)
    }
}

impl TypeCheck for Var {
    open spec fn resolution(&self, t: TcView) -> (TypeView, TcView) {
        resolve_var(*self, t)
    }

    fn resolve_type(&self, ctx: &mut TypeCtx) -> (r: CheckedType) {
        Var::resolve_type(self, ctx)
    }
}

impl TypeCheck for BinaryOp {
    open spec fn resolution(&self, t: TcView) -> (TypeView, TcView) {
        resolve_binop(*self, t)
    }

    fn resolve_type(&self, ctx: &mut TypeCtx) -> (r: CheckedType) {
        BinaryOp::resolve_type(self, ctx)
    }
}

impl TypeCheck for JkInst {
    open spec fn resolution(&self, t: TcView) -> (TypeView, TcView) {
        (TypeView::Void, t)
    }

    fn resolve_type(&self, ctx: &mut TypeCtx) -> (r: CheckedType) {
        JkInst::resolve_type(self, ctx)
    }
}

/// What cached resolution gives: the stored type unless it is missing or
/// deferred, else the resolved one.
pub open spec fn cached_or(cached: Option<CheckedType>, resolved: (TypeView, TcView), t: TcView) -> (
    TypeView,
    TcView,
) {
    match cached {
        Some(c) => if c@ is Later {
            resolved
        } else {
            (c@, t)
        },
        None => resolved,
    }
}

impl IfElse {
    /// Cached resolution: see [`CachedTypeCheck::type_check`].
    pub fn type_of(&mut self, ctx: &mut TypeCtx) -> (r: CheckedType)
        requires
            old(ctx).wf(),
        ensures
            final(ctx).wf(),
            (r@, final(ctx)@) == cached_or(
                old(self).cached_type,
                resolve_if_else(*old(self), old(ctx)@),
                old(ctx)@,
            ),
            final(self).cached_type matches Some(c) && c@ == r@,
            final(self).condition == old(self).condition,
            final(self).if_body == old(self).if_body,
            final(self).else_body == old(self).else_body,
    {
        let fresh = match &self.cached_type {
            Some(c) => if c.is_later() {
                None
            } else {
                Some(c.copy())
            },
            None => None,
        };
        match fresh {
            Some(c) => {
                self.cached_type = Some(c.copy());
                c
            },
            None => {
                let t = IfElse::resolve_type(self, ctx);
                self.cached_type = Some(t.copy());
                t
            },
        }
    }
}

impl Var {
    /// Cached resolution: see [`CachedTypeCheck::type_check`].
    pub fn type_of(&mut self, ctx: &mut TypeCtx) -> (r: CheckedType)
        requires
            old(ctx).wf(),
        ensures
            final(ctx).wf(),
            (r@, final(ctx)@) == cached_or(old(self).cached_type, resolve_var(*old(self), old(ctx)@), old(ctx)@),
            final(self).cached_type matches Some(c) && c@ == r@,
            final(self).name == old(self).name,
            final(self).mutable == old(self).mutable,
            final(self).instance == old(self).instance,
    {
        let fresh = match &self.cached_type {
            Some(c) => if c.is_later() {
                None
            } else {
                Some(c.copy())
            },
            None => None,
        };
        match fresh {
            Some(c) => {
                self.cached_type = Some(c.copy());
                c
            },
            None => {
                let t = Var::resolve_type(self, ctx);
                self.cached_type = Some(t.copy());
                t
            },
        }
    }
}

impl CachedTypeCheck for IfElse {
    open spec fn cached(&self) -> Option<CheckedType> {
        self.cached_type
    }

    fn set_cached_type(&mut self, ty: CheckedType) {
        IfElse::set_cached_type(self, ty)
    }

    fn cached_type(&self) -> (r: Option<&CheckedType>) {
        IfElse::cached_type(self)
    }

    fn type_check(&mut self, ctx: &mut TypeCtx) -> (r: CheckedType) {
        self.type_of(ctx)
    }
}

impl CachedTypeCheck for Var {
    open spec fn cached(&self) -> Option<CheckedType> {
        self.cached_type
    }

    fn set_cached_type(&mut self, ty: CheckedType) {
        Var::set_cached_type(self, ty)
    }

    fn cached_type(&self) -> (r: Option<&CheckedType>) {
        Var::cached_type(self)
    }

    fn type_check(&mut self, ctx: &mut TypeCtx) -> (r: CheckedType) {
        self.type_of(ctx)
    }
}

} // verus!
