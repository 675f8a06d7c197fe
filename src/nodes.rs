//! The abstract syntax tree: a closed set of node kinds, each owning its children.

use vstd::prelude::*;
use crate::error::{ErrKind, Error};
use crate::instance::{CheckedType, ObjectInstance, TypeId, Value};
use crate::operator::Operator;

verus! {

/// Whether a node produces a value.
#[derive(Debug, Clone, Copy, PartialEq, Eq, Structural)]
pub enum InstrKind {
    Statement,
    Expression,
}

/// A node of the tree.
#[derive(Debug)]
pub enum Instr {
    /// A literal value.
    Const(Value),
    BinaryOp(BinaryOp),
    IfElse(IfElse),
    /// A read of a variable.
    Var(Var),
    /// A binding of a variable to the value of an expression.
    VarAssign(VarAssign),
    Block(Block),
    FunctionDec(FunctionDec),
    FunctionCall(FunctionCall),
    /// A directive to the interpreter.
    JkInst(JkInst),
}

/// Two operands and an operator.
#[derive(Debug)]
pub struct BinaryOp {
    pub lhs: Box<Instr>,
    pub rhs: Box<Instr>,
    pub op: Operator,
}

/// A condition, a body run when it holds and an optional body run otherwise.
#[derive(Debug)]
pub struct IfElse {
    pub condition: Box<Instr>,
    pub if_body: Block,
    pub else_body: Option<Block>,
    pub cached_type: Option<CheckedType>,
}

/// A variable: its name, whether it may be reassigned, and its last known
/// instance, kept for display.
#[derive(Debug, Clone)]
pub struct Var {
    pub name: String,
    pub mutable: bool,
    pub instance: ObjectInstance,
    pub cached_type: Option<CheckedType>,
}

/// `name = value`, or `mut name = value`.
#[derive(Debug)]
pub struct VarAssign {
    pub name: String,
    pub mutable: bool,
    pub value: Box<Instr>,
}

/// A sequence of instructions in a scope of its own. Unless it is a statement, the
/// block's value is that of its last instruction.
#[derive(Debug)]
pub struct Block {
    pub instructions: Vec<Instr>,
    pub is_statement: bool,
}

/// `func name(arg: type, ...) -> type { body }`.
#[derive(Debug)]
pub struct FunctionDec {
    pub name: String,
    pub args: Vec<(String, TypeId)>,
    pub return_ty: Option<TypeId>,
    pub body: Block,
}

/// `name(arg, ...)`.
#[derive(Debug)]
pub struct FunctionCall {
    pub name: String,
    pub args: Vec<Instr>,
}

/// The directives the interpreter knows.
#[derive(Debug, Clone, Copy, PartialEq, Eq, Structural)]
pub enum JkInstKind {
    /// Show the current state.
    Dump,
    /// Stop the interpreter.
    Quit,
    /// Show the internal representation.
    Ir,
}

/// A directive, written `@name(args)`. It acts on the interpreter and produces no
/// value.
#[derive(Debug)]
pub struct JkInst {
    pub kind: JkInstKind,
    pub args: Vec<Instr>,
}

/// The directive named `name`, if there is one.
pub open spec fn directive_of_name(name: Seq<char>) -> Option<JkInstKind> {
    if name == seq!['d', 'u', 'm', 'p'] {
        Some(JkInstKind::Dump)
    } else if name == seq!['q', 'u', 'i', 't'] {
        Some(JkInstKind::Quit)
    } else if name == seq!['i', 'r'] {
        Some(JkInstKind::Ir)
    } else {
        None
    }
}

/// Whether a node produces a value.
pub open spec fn kind_of(i: Instr) -> InstrKind {
    match i {
        Instr::IfElse(ie) => block_kind(ie.if_body),
        Instr::Block(b) => block_kind(b),
        Instr::VarAssign(_) | Instr::FunctionDec(_) | Instr::JkInst(_) => InstrKind::Statement,
        _ => InstrKind::Expression,
    }
}

pub open spec fn block_kind(b: Block) -> InstrKind {
    if b.is_statement {
        InstrKind::Statement
    } else {
        InstrKind::Expression
    }
}

impl BinaryOp {
    /// A binary operation on two operands.
    pub fn new(lhs: Box<Instr>, rhs: Box<Instr>, op: Operator) -> (r: BinaryOp)
        ensures
            r.lhs == lhs,
            r.rhs == rhs,
            r.op == op,
    {
        BinaryOp { lhs, rhs, op }
    }

    /// The operator.
    pub fn operator(&self) -> (r: Operator)
        ensures
            r == self.op,
    {
        self.op
    }

    /// The left operand.
    pub fn lhs(&self) -> (r: &Instr)
        ensures
            *r == *self.lhs,
    {
        &self.lhs
    }

    /// The right operand.
    pub fn rhs(&self) -> (r: &Instr)
        ensures
            *r == *self.rhs,
    {
        &self.rhs
    }
}

impl IfElse {
    /// A conditional, with no type cached yet.
    pub fn new(condition: Box<Instr>, if_body: Block, else_body: Option<Block>) -> (r: IfElse)
        ensures
            r.condition == condition,
            r.if_body == if_body,
            r.else_body == else_body,
            r.cached_type is None,
    {
        IfElse { condition, if_body, else_body, cached_type: None }
    }

    /// Whether the conditional produces a value: as its first body does.
    pub fn kind(&self) -> (r: InstrKind)
        ensures
            r == block_kind(self.if_body),
    {
        self.if_body.kind()
    }

    /// Stores a resolved type.
    pub fn set_cached_type(&mut self, ty: CheckedType)
        ensures
            final(self).cached_type == Some(ty),
            final(self).condition == old(self).condition,
            final(self).if_body == old(self).if_body,
            final(self).else_body == old(self).else_body,
    {
        self.cached_type = Some(ty);
    }

    /// The stored type, if any.
    pub fn cached_type(&self) -> (r: Option<&CheckedType>)
        ensures
            match r {
                Some(t) => self.cached_type == Some(*t),
                None => self.cached_type is None,
            },
    {
        match &self.cached_type {
            Some(t) => Some(t),
            None => None,
        }
    }
}

impl Var {
    /// A variable named `name`: immutable, holding the placeholder instance.
    pub fn new(name: String) -> (r: Var)
        ensures
            r.name@ == name@,
            !r.mutable,
            r.instance@.ty is Unknown,
            r.instance@.value is None,
            r.cached_type is None,
    {
        Var { name, mutable: false, instance: ObjectInstance::empty(), cached_type: None }
    }

    /// The variable's name.
    pub fn name(&self) -> (r: &str)
        ensures
            r@ == self.name@,
    {
        self.name.as_str()
    }

    /// A copy of the variable's instance.
    pub fn instance(&self) -> (r: ObjectInstance)
        ensures
            r@ == self.instance@,
    {
        self.instance.copy()
    }

    /// Whether the variable may be reassigned.
    pub fn mutable(&self) -> (r: bool)
        ensures
            r == self.mutable,
    {
        self.mutable
    }

    /// Replaces the variable's instance.
    pub fn set_instance(&mut self, instance: ObjectInstance)
        ensures
            final(self).instance == instance,
            final(self).name == old(self).name,
            final(self).mutable == old(self).mutable,
            final(self).cached_type == old(self).cached_type,
    {
        self.instance = instance;
    }

    /// Changes whether the variable may be reassigned.
    pub fn set_mutable(&mut self, mutable: bool)
        ensures
            final(self).mutable == mutable,
            final(self).name == old(self).name,
            final(self).instance == old(self).instance,
            final(self).cached_type == old(self).cached_type,
    {
        self.mutable = mutable;
    }

    /// Tags the variable's instance with the resolved type `ty`.
    pub fn set_type(&mut self, ty: TypeId)
        ensures
            final(self).instance@.ty == crate::instance::TypeView::Resolved(ty@),
            final(self).instance@.value == old(self).instance@.value,
            final(self).name == old(self).name,
            final(self).mutable == old(self).mutable,
    {
        self.instance.set_ty(CheckedType::Resolved(ty));
    }

    /// Stores a resolved type.
    pub fn set_cached_type(&mut self, ty: CheckedType)
        ensures
            final(self).cached_type == Some(ty),
            final(self).name == old(self).name,
            final(self).mutable == old(self).mutable,
            final(self).instance == old(self).instance,
    {
        self.cached_type = Some(ty);
    }

    /// The stored type, if any.
    pub fn cached_type(&self) -> (r: Option<&CheckedType>)
        ensures
            match r {
                Some(t) => self.cached_type == Some(*t),
                None => self.cached_type is None,
            },
    {
        match &self.cached_type {
            Some(t) => Some(t),
            None => None,
        }
    }
}

impl Default for Var {
    fn default() -> (r: Var)
        ensures
            r.name@ == Seq::<char>::empty(),
            !r.mutable,
    {
        Var::new(String::new())
    }
}

impl VarAssign {
    /// Binds `name` to the value of `value`.
    pub fn new(mutable: bool, name: String, value: Box<Instr>) -> (r: VarAssign)
        ensures
            r.mutable == mutable,
            r.name == name,
            r.value == value,
    {
        VarAssign { name, mutable, value }
    }
}

impl Block {
    /// An empty block that is a statement.
    pub fn new() -> (r: Block)
        ensures
            r.instructions@.len() == 0,
            r.is_statement,
    {
        Block { instructions: Vec::new(), is_statement: true }
    }

    /// Appends an instruction.
    pub fn add_instruction(&mut self, i: Instr)
        ensures
            final(self).instructions@ == old(self).instructions@.push(i),
            final(self).is_statement == old(self).is_statement,
    {
        self.instructions.push(i);
    }

    /// Sets whether the block's last value is discarded.
    pub fn set_statement(&mut self, is_statement: bool)
        ensures
            final(self).instructions == old(self).instructions,
            final(self).is_statement == is_statement,
    {
        self.is_statement = is_statement;
    }

    /// Whether the block produces a value.
    pub fn kind(&self) -> (r: InstrKind)
        ensures
            r == block_kind(*self),
    {
        if self.is_statement {
            InstrKind::Statement
        } else {
            InstrKind::Expression
        }
    }
}

impl FunctionDec {
    /// A function declaration; without a return type the function returns nothing.
    pub fn new(name: String, args: Vec<(String, TypeId)>, return_ty: Option<TypeId>, body: Block)
        -> (r: FunctionDec)
        ensures
            r.name == name,
            r.args == args,
            r.return_ty == return_ty,
            r.body == body,
    {
        FunctionDec { name, args, return_ty, body }
    }
}

impl FunctionCall {
    /// A call of `name` on `args`.
    pub fn new(name: String, args: Vec<Instr>) -> (r: FunctionCall)
        ensures
            r.name == name,
            r.args == args,
    {
        FunctionCall { name, args }
    }

    /// The called name.
    pub fn name(&self) -> (r: &str)
        ensures
            r@ == self.name@,
    {
        self.name.as_str()
    }

    /// The arguments.
    pub fn args(&self) -> (r: &Vec<Instr>)
        ensures
            r == self.args,
    {
        &self.args
    }
}

impl JkInst {
    /// The directive a call-like form names: `dump`, `quit` or `ir`, keeping the
    /// call's arguments. Any other name is a parsing error. The call is taken by
    /// value: its arguments move into the directive.
    pub fn from_function_call(fc: FunctionCall) -> (r: Result<JkInst, Error>)
        ensures
            match r {
                Ok(inst) => directive_of_name(fc.name@) == Some(inst.kind) && inst.args == fc.args,
                Err(e) => directive_of_name(fc.name@) is None && e.kind == ErrKind::Parsing,
            },
    {
        let name = fc.name();
        let n = name.unicode_len();
        let mut kind: Option<JkInstKind> = None;
        if n == 4 {
            let a = name.get_char(0);
            let b = name.get_char(1);
            let c = name.get_char(2);
            let d = name.get_char(3);
            assert(name@ =~= seq![a, b, c, d]);
            if a == 'd' && b == 'u' && c == 'm' && d == 'p' {
                kind = Some(JkInstKind::Dump);
            } else if a == 'q' && b == 'u' && c == 'i' && d == 't' {
                kind = Some(JkInstKind::Quit);
            } else {
                assert(name@ != seq!['d', 'u', 'm', 'p']);
                assert(name@ != seq!['q', 'u', 'i', 't']);
            }
        } else if n == 2 {
            let a = name.get_char(0);
            let b = name.get_char(1);
            assert(name@ =~= seq![a, b]);
            if a == 'i' && b == 'r' {
                kind = Some(JkInstKind::Ir);
            }
        }
        proof {
            if kind is None && n != 4 && n != 2 {
                assert(name@ != seq!['d', 'u', 'm', 'p']);
                assert(name@ != seq!['q', 'u', 'i', 't']);
                assert(name@ != seq!['i', 'r']);
            }
            if kind is None && n == 4 {
                assert(name@ != seq!['i', 'r']);
            }
            if kind is None && n == 2 {
                assert(name@ != seq!['d', 'u', 'm', 'p']);
                assert(name@ != seq!['q', 'u', 'i', 't']);
            }
        }
        match kind {
            Some(k) => Ok(JkInst { kind: k, args: fc.args }),
            None => Err(Error::new(ErrKind::Parsing).with_msg(
                crate::error::message_with("unknown ctx directive @", name),
            )),
        }
    }

    /// Directives are statements.
    pub fn kind(&self) -> (r: InstrKind)
        ensures
            r == InstrKind::Statement,
    {
        InstrKind::Statement
    }
}

impl Instr {
    /// Whether the node produces a value.
    pub fn kind(&self) -> (r: InstrKind)
        ensures
            r == kind_of(*self),
    {
        match self {
            Instr::IfElse(ie) => ie.kind(),
            Instr::Block(b) => b.kind(),
            Instr::VarAssign(_) | Instr::FunctionDec(_) | Instr::JkInst(_) => InstrKind::Statement,
            _ => InstrKind::Expression,
        }
    }
}

} // verus!
