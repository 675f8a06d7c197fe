//! Execution of the tree against a runtime [`Context`].
//!
//! Execution is stated as a function from a node and a context model to the
//! instance the node yields, if any, and the context model afterwards. Yielding
//! nothing means that a diagnostic was recorded for the subtree, or that the node
//! is a statement.

use vstd::prelude::*;
use crate::context::{find_binding, lookup_binding, BindingView, Context, CtxView};
use crate::error::{ErrKind, Error};
use crate::instance::{instance_of, InstanceView, ObjectInstance, Value, ValueView};
use crate::nodes::{BinaryOp, Block, FunctionCall, FunctionDec, IfElse, Instr, JkInst, Var, VarAssign};
use crate::operator::Operator;

verus! {

/// Division that rounds toward zero, as machine integers do.
pub open spec fn trunc_div(a: int, b: int) -> int {
    let ua: int = if a < 0 { -a } else { a };
    let ub: int = if b < 0 { -b } else { b };
    if (a < 0) == (b < 0) {
        ua / ub
    } else {
        -(ua / ub)
    }
}

/// The integer kernel: the result of `op` on two integers, or `None` when the
/// operation fails (overflow, division by zero, or a pseudo-operator).
pub open spec fn int_op(op: Operator, a: i64, b: i64) -> Option<ValueView> {
    match op {
        Operator::Add => if i64::MIN <= a + b <= i64::MAX {
            Some(ValueView::Int((a + b) as i64))
        } else {
            None
        },
        Operator::Sub => if i64::MIN <= a - b <= i64::MAX {
            Some(ValueView::Int((a - b) as i64))
        } else {
            None
        },
        Operator::Mul => if i64::MIN <= a * b <= i64::MAX {
            Some(ValueView::Int((a * b) as i64))
        } else {
            None
        },
        Operator::Div => if b != 0 && i64::MIN <= trunc_div(a as int, b as int) <= i64::MAX {
            Some(ValueView::Int(trunc_div(a as int, b as int) as i64))
        } else {
            None
        },
        Operator::Equals => Some(ValueView::Bool(a == b)),
        Operator::NotEquals => Some(ValueView::Bool(a != b)),
        Operator::LeftParenthesis | Operator::RightParenthesis => None,
    }
}

/// Executable integer kernel.
pub fn int_kernel(op: Operator, a: i64, b: i64) -> (r: Option<Value>)
    ensures
        match r {
            Some(v) => int_op(op, a, b) == Some(v@),
            None => int_op(op, a, b) is None,
        },
{
    match op {
        Operator::Add => match a.checked_add(b) {
            Some(c) => Some(Value::Int(c)),
            None => None,
        },
        Operator::Sub => match a.checked_sub(b) {
            Some(c) => Some(Value::Int(c)),
            None => None,
        },
        Operator::Mul => match a.checked_mul(b) {
            Some(c) => Some(Value::Int(c)),
            None => None,
        },
        Operator::Div => {
            if b == 0 || (a == i64::MIN && b == -1) {
                proof {
                    if b != 0 {
                        assert(a as int == -0x8000_0000_0000_0000int && b as int == -1int);
                        let ua: int = 0x8000_0000_0000_0000int;
                        assert(ua / 1 == ua) by (nonlinear_arith);
                        assert(trunc_div(a as int, b as int) == ua / 1int);
                        assert(trunc_div(a as int, b as int) > i64::MAX);
                    }
                }
                None
            } else {
                let ua: i128 = if a < 0 { -(a as i128) } else { a as i128 };
                let ub: i128 = if b < 0 { -(b as i128) } else { b as i128 };
                let m: i128 = ua / ub;
                assert(0 <= m <= ua) by (nonlinear_arith)
                    requires ua >= 0, ub >= 1, m == ua / ub;
                proof {
                    if ua == 0x8000_0000_0000_0000 && ub >= 2 {
                        assert(m <= ua / 2) by (nonlinear_arith)
                            requires ua >= 0, ub >= 2, m == ua / ub;
                    }
                }
                let q: i128 = if (a < 0) == (b < 0) { m } else { -m };
                assert(q == trunc_div(a as int, b as int));
                Some(Value::Int(q as i64))
            }
        },
        Operator::Equals => Some(Value::Bool(a == b)),
        Operator::NotEquals => Some(Value::Bool(a != b)),
        Operator::LeftParenthesis | Operator::RightParenthesis => None,
    }
}

/// Applies an operator to two evaluated operands: operands of different types give
/// nothing; integers go to the integer kernel, whose failure is recorded; floats
/// have no kernel in this core, which is recorded; other types give nothing.
pub open spec fn apply_op(op: Operator, l: InstanceView, r: InstanceView, c: CtxView) -> (
    Option<InstanceView>,
    CtxView,
) {
    if l.ty != r.ty {
        (None, c)
    } else {
        match (l.value, r.value) {
            (Some(ValueView::Int(a)), Some(ValueView::Int(b))) => match int_op(op, a, b) {
                Some(v) => (Some(instance_of(v)), c),
                None => (None, c.with_error(ErrKind::Context)),
            },
            (Some(ValueView::Float(_)), Some(ValueView::Float(_))) => (
                None,
                c.with_error(ErrKind::Context),
            ),
            _ => (None, c),
        }
    }
}

/// The last function declared at the top level of program `p` under `name`.
pub open spec fn find_fn(p: Seq<Instr>, name: Seq<char>) -> Option<FunctionDec>
    decreases p.len(),
{
    if p.len() == 0 {
        None
    } else {
        match p.last() {
            Instr::FunctionDec(d) => if d.name@ == name {
                Some(d)
            } else {
                find_fn(p.drop_last(), name)
            },
            _ => find_fn(p.drop_last(), name),
        }
    }
}

/// The context with each parameter bound, immutable, to its argument's instance.
pub open spec fn bind_params(
    c: CtxView,
    params: Seq<(String, crate::instance::TypeId)>,
    vals: Seq<InstanceView>,
) -> CtxView
    decreases params.len(),
{
    if params.len() == 0 || vals.len() == 0 {
        c
    } else {
        bind_params(c, params.drop_last(), vals.drop_last()).bind(
            BindingView { name: params.last().0@, mutable: false, instance: vals.last() },
        )
    }
}

/// What a node yields and the context after executing it, in program `p` whose
/// top-level functions can be called, with at most `fuel` nested calls.
pub open spec fn exec(i: Instr, c: CtxView, p: Seq<Instr>, fuel: nat) -> (Option<InstanceView>, CtxView)
    decreases fuel, i,
{
    match i {
        Instr::Const(v) => (Some(instance_of(v@)), c),
        Instr::BinaryOp(b) => exec_binop(b, c, p, fuel),
        Instr::IfElse(ie) => exec_if_else(ie, c, p, fuel),
        Instr::Var(v) => exec_var(v, c),
        Instr::VarAssign(a) => exec_assign(a, c, p, fuel),
        Instr::Block(b) => exec_block(b, c, p, fuel),
        Instr::FunctionDec(_) => (None, c),
        Instr::FunctionCall(call) => exec_call(call, c, p, fuel),
        Instr::JkInst(j) => (None, c.with_directive(j.kind)),
    }
}

/// Both operands are executed, left first. An operand that yields nothing is an
/// invalid use of a statement where a value is required: that is recorded, and
/// the operation yields nothing.
pub open spec fn exec_binop(b: BinaryOp, c: CtxView, p: Seq<Instr>, fuel: nat) -> (
    Option<InstanceView>,
    CtxView,
)
    decreases fuel, b,
{
    let (l, c1) = exec(*b.lhs, c, p, fuel);
    match l {
        None => (None, c1.with_error(ErrKind::Context)),
        Some(lv) => {
            let (r, c2) = exec(*b.rhs, c1, p, fuel);
            match r {
                None => (None, c2.with_error(ErrKind::Context)),
                Some(rv) => apply_op(b.op, lv, rv, c2),
            }
        },
    }
}

/// A true condition runs the first body, a false one the `else` body if there is
/// one. A false condition without an `else` body yields nothing; when the first
/// body would have produced a value, that missing value is recorded. A condition
/// that is no boolean is recorded.
pub open spec fn exec_if_else(ie: IfElse, c: CtxView, p: Seq<Instr>, fuel: nat) -> (
    Option<InstanceView>,
    CtxView,
)
    decreases fuel, ie,
{
    let (cv, c1) = exec(*ie.condition, c, p, fuel);
    match cv {
        None => (None, c1),
        Some(inst) => match inst.value {
            Some(ValueView::Bool(true)) => exec_block(ie.if_body, c1, p, fuel),
            Some(ValueView::Bool(false)) => match ie.else_body {
                Some(e) => exec_block(e, c1, p, fuel),
                None => if ie.if_body.is_statement {
                    (None, c1)
                } else {
                    (None, c1.with_error(ErrKind::Context))
                },
            },
            _ => (None, c1.with_error(ErrKind::Context)),
        },
    }
}

/// A bound variable yields a copy of its instance; an unbound one is recorded.
pub open spec fn exec_var(v: Var, c: CtxView) -> (Option<InstanceView>, CtxView) {
    match lookup_binding(c.scopes, v.name@) {
        Some(b) => (Some(b.instance), c),
        None => (None, c.with_error(ErrKind::Context)),
    }
}

/// The value is bound in the innermost scope. Rebinding a name bound there is
/// allowed only when that binding is mutable; the new binding stays mutable.
pub open spec fn exec_assign(a: VarAssign, c: CtxView, p: Seq<Instr>, fuel: nat) -> (
    Option<InstanceView>,
    CtxView,
)
    decreases fuel, a,
{
    let (vv, c1) = exec(*a.value, c, p, fuel);
    match vv {
        None => (None, c1),
        Some(inst) => match find_binding(c1.scopes.last(), a.name@) {
            None => (None, c1.bind(BindingView { name: a.name@, mutable: a.mutable, instance: inst })),
            Some(prev) => if prev.mutable {
                (None, c1.bind(BindingView { name: a.name@, mutable: true, instance: inst }))
            } else {
                (None, c1.with_error(ErrKind::Context))
            },
        },
    }
}

/// A block runs its instructions in order, in a scope of its own, and stops after
/// the first that records a diagnostic. Unless it is a statement, it yields what
/// its last instruction yields.
pub open spec fn exec_block(b: Block, c: CtxView, p: Seq<Instr>, fuel: nat) -> (
    Option<InstanceView>,
    CtxView,
)
    decreases fuel, b,
{
    let (last, c1, stopped) = exec_seq(b.instructions@, c.entered(), p, fuel);
    (if b.is_statement || stopped { None } else { last }, c1.exited())
}

/// What the last of a sequence of instructions yields, the context after them,
/// and whether one of them recorded a diagnostic, which ends the sequence.
pub open spec fn exec_seq(s: Seq<Instr>, c: CtxView, p: Seq<Instr>, fuel: nat) -> (
    Option<InstanceView>,
    CtxView,
    bool,
)
    decreases fuel, s,
{
    if s.len() == 0 {
        (None, c, false)
    } else {
        let (_, c1, stopped) = exec_seq(s.subrange(0, s.len() - 1), c, p, fuel);
        if stopped {
            (None, c1, true)
        } else {
            let (r, c2) = exec(s[s.len() - 1], c1, p, fuel);
            (r, c2, c2.errors.len() > c1.errors.len())
        }
    }
}

/// The instances the arguments yield, in order, the context after them, and
/// whether every one yielded an instance; the first that yields none ends them.
pub open spec fn exec_args(s: Seq<Instr>, c: CtxView, p: Seq<Instr>, fuel: nat) -> (
    Seq<InstanceView>,
    CtxView,
    bool,
)
    decreases fuel, s,
{
    if s.len() == 0 {
        (Seq::empty(), c, true)
    } else {
        let (vs, c1, ok) = exec_args(s.subrange(0, s.len() - 1), c, p, fuel);
        if !ok {
            (vs, c1, false)
        } else {
            let (r, c2) = exec(s[s.len() - 1], c1, p, fuel);
            match r {
                Some(v) => (vs.push(v), c2, true),
                None => (vs, c2, false),
            }
        }
    }
}

/// A call runs the body of the program's top-level function of that name, in a
/// scope where each parameter is bound to its argument. An unknown function, a
/// wrong number of arguments, or a call nested deeper than `fuel` is recorded.
pub open spec fn exec_call(call: FunctionCall, c: CtxView, p: Seq<Instr>, fuel: nat) -> (
    Option<InstanceView>,
    CtxView,
)
    decreases fuel, call,
{
    match find_fn(p, call.name@) {
        None => (None, c.with_error(ErrKind::Context)),
        Some(d) => if d.args@.len() != call.args@.len() {
            (None, c.with_error(ErrKind::Context))
        } else {
            let (vals, c1, ok) = exec_args(call.args@, c, p, fuel);
            if !ok {
                (None, c1)
            } else if fuel == 0 {
                (None, c1.with_error(ErrKind::Context))
            } else {
                let c2 = bind_params(c1.entered(), d.args@, vals);
                let (r, c3) = exec_block(d.body, c2, p, (fuel - 1) as nat);
                (r, c3.exited())
            }
        },
    }
}

/// Records a runtime diagnostic made of `text` followed by `name`.
fn context_error(ctx: &mut Context, text: &str, name: &str)
    requires
        old(ctx).wf(),
    ensures
        final(ctx).wf(),
        final(ctx)@ == old(ctx)@.with_error(ErrKind::Context),
{
    ctx.error(Error::new(ErrKind::Context).with_msg(crate::error::message_with(text, name)));
}

impl Instr {
    /// Executes the node.
    pub fn execute_in(&self, ctx: &mut Context, prog: &Vec<Instr>, fuel: u64) -> (r: Option<ObjectInstance>)
        requires
            old(ctx).wf(),
        ensures
            final(ctx).wf(),
            (match r {
                Some(i) => Some(i@),
                None => None,
            }, final(ctx)@) == exec(*self, old(ctx)@, prog@, fuel as nat),
        decreases fuel, self,
    {
        match self {
            Instr::Const(v) => Some(ObjectInstance::from_value(v.copy())),
            Instr::BinaryOp(b) => b.execute_in(ctx, prog, fuel),
            Instr::IfElse(ie) => ie.execute_in(ctx, prog, fuel),
            Instr::Var(v) => v.execute(ctx),
            Instr::VarAssign(a) => a.execute_in(ctx, prog, fuel),
            Instr::Block(b) => b.execute_in(ctx, prog, fuel),
            Instr::FunctionDec(_) => None,
            Instr::FunctionCall(c) => c.execute_in(ctx, prog, fuel),
            Instr::JkInst(j) => j.execute(ctx),
        }
    }
}

/// Executable counterpart of [`apply_op`].
fn apply_operator(op: Operator, l: ObjectInstance, r: ObjectInstance, ctx: &mut Context) -> (res:
    Option<ObjectInstance>)
    requires
        old(ctx).wf(),
    ensures
        final(ctx).wf(),
        (match res {
            Some(i) => Some(i@),
            None => None,
        }, final(ctx)@) == apply_op(op, l@, r@, old(ctx)@),
{
    if !l.ty.eq(&r.ty) {
        return None;
    }
    match (&l.value, &r.value) {
        (Some(Value::Int(a)), Some(Value::Int(b))) => match int_kernel(op, *a, *b) {
            Some(v) => Some(ObjectInstance::from_value(v)),
            None => {
                context_error(ctx, "integer operation failed: ", op.as_str());
                None
            },
        },
        (Some(Value::Float(_)), Some(Value::Float(_))) => {
            context_error(ctx, "no float kernel for operator ", op.as_str());
            None
        },
        _ => None,
    }
}

impl BinaryOp {
    /// Executes both operands, left first, then applies the operator.
    pub fn execute_in(&self, ctx: &mut Context, prog: &Vec<Instr>, fuel: u64) -> (r: Option<ObjectInstance>)
        requires
            old(ctx).wf(),
        ensures
            final(ctx).wf(),
            (match r {
                Some(i) => Some(i@),
                None => None,
            }, final(ctx)@) == exec_binop(*self, old(ctx)@, prog@, fuel as nat),
        decreases fuel, self,
    {
        let l = match self.lhs.execute_in(ctx, prog, fuel) {
            Some(v) => v,
            None => {
                let text = self.lhs.print();
                context_error(ctx, "invalid use of statement in binary operation: ", text.as_str());
                return None;
            },
        };
        let r = match self.rhs.execute_in(ctx, prog, fuel) {
            Some(v) => v,
            None => {
                let text = self.rhs.print();
                context_error(ctx, "invalid use of statement in binary operation: ", text.as_str());
                return None;
            },
        };
        apply_operator(self.op, l, r, ctx)
    }
}

impl IfElse {
    /// Executes the condition, then the body it selects.
    pub fn execute_in(&self, ctx: &mut Context, prog: &Vec<Instr>, fuel: u64) -> (r: Option<ObjectInstance>)
        requires
            old(ctx).wf(),
        ensures
            final(ctx).wf(),
            (match r {
                Some(i) => Some(i@),
                None => None,
            }, final(ctx)@) == exec_if_else(*self, old(ctx)@, prog@, fuel as nat),
        decreases fuel, self,
    {
        let cond = match self.condition.execute_in(ctx, prog, fuel) {
            Some(v) => v,
            None => return None,
        };
        match &cond.value {
            Some(Value::Bool(true)) => self.if_body.execute_in(ctx, prog, fuel),
            Some(Value::Bool(false)) => match &self.else_body {
                Some(e) => e.execute_in(ctx, prog, fuel),
                None => {
                    if !self.if_body.is_statement {
                        context_error(ctx, "`if` block has a value but no else block to match it", "");
                    }
                    None
                },
            },
            _ => {
                context_error(ctx, "if condition is not a boolean", "");
                None
            },
        }
    }
}

impl Var {
    /// A copy of the instance bound to the variable's name.
    pub fn execute(&self, ctx: &mut Context) -> (r: Option<ObjectInstance>)
        requires
            old(ctx).wf(),
        ensures
            final(ctx).wf(),
            (match r {
                Some(i) => Some(i@),
                None => None,
            }, final(ctx)@) == exec_var(*self, old(ctx)@),
    {
        match ctx.get_variable(self.name()) {
            Some(v) => Some(v.instance()),
            None => {
                context_error(ctx, "variable has not been declared: ", self.name());
                None
            },
        }
    }
}

impl VarAssign {
    /// Executes the value and binds it.
    pub fn execute_in(&self, ctx: &mut Context, prog: &Vec<Instr>, fuel: u64) -> (r: Option<ObjectInstance>)
        requires
            old(ctx).wf(),
        ensures
            final(ctx).wf(),
            (match r {
                Some(i) => Some(i@),
                None => None,
            }, final(ctx)@) == exec_assign(*self, old(ctx)@, prog@, fuel as nat),
        decreases fuel, self,
    {
        let inst = match self.value.execute_in(ctx, prog, fuel) {
            Some(v) => v,
            None => return None,
        };
        let prev = match ctx.get_local(&self.name) {
            Some(v) => Some(v.mutable),
            None => None,
        };
        match prev {
            None => {
                let var = Var { name: self.name.clone(), mutable: self.mutable, instance: inst, cached_type: None };
                ctx.push_binding(var);
            },
            Some(true) => {
                let var = Var { name: self.name.clone(), mutable: true, instance: inst, cached_type: None };
                ctx.push_binding(var);
            },
            Some(false) => {
                context_error(ctx, "trying to reassign immutable variable: ", self.name.as_str());
            },
        }
        None
    }
}

impl Block {
    /// Executes the instructions in order in a scope of their own, stopping after
    /// the first that records a diagnostic.
    pub fn execute_in(&self, ctx: &mut Context, prog: &Vec<Instr>, fuel: u64) -> (r: Option<ObjectInstance>)
        requires
            old(ctx).wf(),
        ensures
            final(ctx).wf(),
            (match r {
                Some(i) => Some(i@),
                None => None,
            }, final(ctx)@) == exec_block(*self, old(ctx)@, prog@, fuel as nat),
        decreases fuel, self,
    {
        ctx.scope_enter();
        let ghost c0 = ctx@;
        let mut last: Option<ObjectInstance> = None;
        let mut stopped = false;
        let mut i: usize = 0;
        let n = self.instructions.len();
        while i < n
            invariant
                n == self.instructions@.len(),
                i <= n,
                ctx.wf(),
                (match last {
                    Some(x) => Some(x@),
                    None => None,
                }, ctx@, stopped) == exec_seq(self.instructions@.subrange(0, i as int), c0, prog@, fuel as nat),
            decreases n - i,
        {
            proof {
                assert(self.instructions@.subrange(0, i + 1).subrange(0, i as int)
                    =~= self.instructions@.subrange(0, i as int));
            }
            if stopped {
                last = None;
            } else {
                let before = ctx.errors().len();
                last = self.instructions[i].execute_in(ctx, prog, fuel);
                stopped = ctx.errors().len() > before;
            }
            i = i + 1;
        }
        assert(self.instructions@.subrange(0, n as int) =~= self.instructions@);
        ctx.scope_exit();
        if self.is_statement || stopped {
            None
        } else {
            last
        }
    }
}

impl JkInst {
    /// Queues the directive for the embedding program; yields nothing.
    pub fn execute(&self, ctx: &mut Context) -> (r: Option<ObjectInstance>)
        requires
            old(ctx).wf(),
        ensures
            final(ctx).wf(),
            r is None,
            final(ctx)@ == old(ctx)@.with_directive(self.kind),
    {
        ctx.request(self.kind);
        None
    }
}

/// When every argument yields an instance, there is one instance per argument.
proof fn lemma_exec_args_len(s: Seq<Instr>, c: CtxView, p: Seq<Instr>, fuel: nat)
    ensures
        exec_args(s, c, p, fuel).2 ==> exec_args(s, c, p, fuel).0.len() == s.len(),
    decreases s.len(),
{
    if s.len() > 0 {
        lemma_exec_args_len(s.subrange(0, s.len() - 1), c, p, fuel);
    }
}

/// The last function declared at the top level of `prog` under `name`.
fn find_function<'a>(prog: &'a Vec<Instr>, name: &String) -> (r: Option<&'a FunctionDec>)
    ensures
        match r {
            Some(d) => find_fn(prog@, name@) == Some(*d),
            None => find_fn(prog@, name@) is None,
        },
{
    let mut k: usize = prog.len();
    assert(prog@.subrange(0, k as int) =~= prog@);
    while k > 0
        invariant
            k <= prog@.len(),
            find_fn(prog@, name@) == find_fn(prog@.subrange(0, k as int), name@),
        decreases k,
    {
        assert(prog@.subrange(0, k as int).drop_last() =~= prog@.subrange(0, k - 1));
        match &prog[k - 1] {
            Instr::FunctionDec(d) => {
                if d.name == *name {
                    return Some(d);
                }
            },
            _ => {},
        }
        k = k - 1;
    }
    None
}

impl FunctionCall {
    /// Runs the called function's body with its parameters bound to the
    /// arguments, at most `fuel` calls deep.
    pub fn execute_in(&self, ctx: &mut Context, prog: &Vec<Instr>, fuel: u64) -> (r: Option<ObjectInstance>)
        requires
            old(ctx).wf(),
        ensures
            final(ctx).wf(),
            (match r {
                Some(i) => Some(i@),
                None => None,
            }, final(ctx)@) == exec_call(*self, old(ctx)@, prog@, fuel as nat),
        decreases fuel, self,
    {
        let d = match find_function(prog, &self.name) {
            Some(d) => d,
            None => {
                context_error(ctx, "call of undeclared function: ", self.name.as_str());
                return None;
            },
        };
        if d.args.len() != self.args.len() {
            context_error(ctx, "wrong number of arguments in call of: ", self.name.as_str());
            return None;
        }
        let ghost c0 = ctx@;
        let mut vals: Vec<ObjectInstance> = Vec::new();
        let mut ok = true;
        let mut i: usize = 0;
        let n = self.args.len();
        while i < n
            invariant
                n == self.args@.len(),
                i <= n,
                ctx.wf(),
                (vals@.map_values(|v: ObjectInstance| v@), ctx@, ok) == exec_args(
                    self.args@.subrange(0, i as int),
                    c0,
                    prog@,
                    fuel as nat,
                ),
            decreases n - i,
        {
            proof {
                assert(self.args@.subrange(0, i + 1).subrange(0, i as int) =~= self.args@.subrange(0, i as int));
            }
            if ok {
                match self.args[i].execute_in(ctx, prog, fuel) {
                    Some(v) => {
                        let ghost before = vals@;
                        let ghost vv = v@;
                        vals.push(v);
                        assert(vals@.map_values(|x: ObjectInstance| x@) =~= before.map_values(
                            |x: ObjectInstance| x@,
                        ).push(vv));
                    },
                    None => {
                        ok = false;
                    },
                }
            }
            i = i + 1;
        }
        assert(self.args@.subrange(0, n as int) =~= self.args@);
        if !ok {
            return None;
        }
        if fuel == 0 {
            context_error(ctx, "call nesting too deep: ", self.name.as_str());
            return None;
        }
        let ghost vs = vals@.map_values(|v: ObjectInstance| v@);
        proof {
            lemma_exec_args_len(self.args@, c0, prog@, fuel as nat);
        }
        ctx.scope_enter();
        let ghost c1 = ctx@;
        let mut k: usize = 0;
        while k < n
            invariant
                n == d.args@.len(),
                vals@.len() == n,
                vs == vals@.map_values(|v: ObjectInstance| v@),
                k <= n,
                ctx.wf(),
                ctx@ == bind_params(c1, d.args@.subrange(0, k as int), vs.subrange(0, k as int)),
            decreases n - k,
        {
            proof {
                assert(d.args@.subrange(0, k + 1).drop_last() =~= d.args@.subrange(0, k as int));
                assert(vs.subrange(0, k + 1).drop_last() =~= vs.subrange(0, k as int));
            }
            let var = Var {
                name: d.args[k].0.clone(),
                mutable: false,
                instance: vals[k].copy(),
                cached_type: None,
            };
            ctx.push_binding(var);
            k = k + 1;
        }
        assert(d.args@.subrange(0, n as int) =~= d.args@);
        assert(vs.subrange(0, n as int) =~= vs);
        let r = d.body.execute_in(ctx, prog, fuel - 1);
        ctx.scope_exit();
        r
    }
}

impl Instr {
    /// Executes the node on its own: no function can be called.
    pub fn execute(&self, ctx: &mut Context) -> (r: Option<ObjectInstance>)
        requires
            old(ctx).wf(),
        ensures
            final(ctx).wf(),
            (match r {
                Some(i) => Some(i@),
                None => None,
            }, final(ctx)@) == exec(*self, old(ctx)@, Seq::empty(), 0),
    {
        let none: Vec<Instr> = Vec::new();
        assert(none@ =~= Seq::<Instr>::empty());
        self.execute_in(ctx, &none, 0)
    }
}

impl BinaryOp {
    /// Executes the operation on its own: no function can be called.
    pub fn execute(&self, ctx: &mut Context) -> (r: Option<ObjectInstance>)
        requires
            old(ctx).wf(),
        ensures
            final(ctx).wf(),
            (match r {
                Some(i) => Some(i@),
                None => None,
            }, final(ctx)@) == exec_binop(*self, old(ctx)@, Seq::empty(), 0),
    {
        let none: Vec<Instr> = Vec::new();
        assert(none@ =~= Seq::<Instr>::empty());
        self.execute_in(ctx, &none, 0)
    }
}

impl IfElse {
    /// Executes the conditional on its own: no function can be called.
    pub fn execute(&self, ctx: &mut Context) -> (r: Option<ObjectInstance>)
        requires
            old(ctx).wf(),
        ensures
            final(ctx).wf(),
            (match r {
                Some(i) => Some(i@),
                None => None,
            }, final(ctx)@) == exec_if_else(*self, old(ctx)@, Seq::empty(), 0),
    {
        let none: Vec<Instr> = Vec::new();
        assert(none@ =~= Seq::<Instr>::empty());
        self.execute_in(ctx, &none, 0)
    }
}

/// What running a program yields: its top-level instructions in order, in the
/// current scope, stopping after the first that records a diagnostic.
pub open spec fn run_spec(p: Seq<Instr>, c: CtxView, fuel: nat) -> (Option<InstanceView>, CtxView, bool) {
    exec_seq(p, c, p, fuel)
}

/// Runs a program: its top-level instructions in order, in the current scope,
/// with its top-level functions callable at most `fuel` calls deep. Stops after
/// the first instruction that records a diagnostic; yields what the last one
/// executed yields.
pub fn run_program(program: &Vec<Instr>, ctx: &mut Context, fuel: u64) -> (r: Option<ObjectInstance>)
    requires
        old(ctx).wf(),
    ensures
        final(ctx).wf(),
        (match r {
            Some(i) => Some(i@),
            None => None,
        }, final(ctx)@) == (run_spec(program@, old(ctx)@, fuel as nat).0, run_spec(program@, old(ctx)@, fuel as nat).1),
{
    let ghost c0 = ctx@;
    let mut last: Option<ObjectInstance> = None;
    let mut stopped = false;
    let mut i: usize = 0;
    let n = program.len();
    while i < n
        invariant
            n == program@.len(),
            i <= n,
            ctx.wf(),
            (match last {
                Some(x) => Some(x@),
                None => None,
            }, ctx@, stopped) == exec_seq(program@.subrange(0, i as int), c0, program@, fuel as nat),
        decreases n - i,
    {
        proof {
            assert(program@.subrange(0, i + 1).subrange(0, i as int) =~= program@.subrange(0, i as int));
        }
        if stopped {
            last = None;
        } else {
            let before = ctx.errors().len();
            last = program[i].execute_in(ctx, program, fuel);
            stopped = ctx.errors().len() > before;
        }
        i = i + 1;
    }
    assert(program@.subrange(0, n as int) =~= program@);
    last
}

} // verus!
