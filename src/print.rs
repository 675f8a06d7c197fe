//! Rendering of the tree back to source text.

use vstd::prelude::*;
use crate::instance::{value_text, TypeId};
use crate::nodes::{BinaryOp, Block, FunctionCall, FunctionDec, IfElse, Instr, JkInst, JkInstKind, VarAssign};
use crate::operator::operator_text;

verus! {

pub open spec fn directive_text(k: JkInstKind) -> Seq<char> {
    match k {
        JkInstKind::Dump => seq!['@', 'd', 'u', 'm', 'p'],
        JkInstKind::Quit => seq!['@', 'q', 'u', 'i', 't'],
        JkInstKind::Ir => seq!['@', 'i', 'r'],
    }
}

/// The source text of a node.
pub open spec fn print_instr(i: Instr) -> Seq<char>
    decreases i,
{
    match i {
        Instr::Const(v) => value_text(v@),
        Instr::BinaryOp(b) => print_binop(b),
        Instr::IfElse(ie) => print_if_else(ie),
        Instr::Var(v) => v.name@,
        Instr::VarAssign(a) => print_assign(a),
        Instr::Block(b) => print_block(b),
        Instr::FunctionDec(d) => print_fn_dec(d),
        Instr::FunctionCall(c) => print_call(c),
        Instr::JkInst(j) => directive_text(j.kind),
    }
}

/// `lhs op rhs`.
pub open spec fn print_binop(b: BinaryOp) -> Seq<char>
    decreases b,
{
    print_instr(*b.lhs) + seq![' '] + operator_text(b.op) + seq![' '] + print_instr(*b.rhs)
}

/// `if cond {...}`, followed by ` else {...}` when there is an `else` body.
pub open spec fn print_if_else(ie: IfElse) -> Seq<char>
    decreases ie,
{
    let base = seq!['i', 'f', ' '] + print_instr(*ie.condition) + seq![' '] + print_block(ie.if_body);
    match ie.else_body {
        Some(e) => base + seq![' ', 'e', 'l', 's', 'e', ' '] + print_block(e),
        None => base,
    }
}

/// `name = value`, with `mut ` first for a mutable binding.
pub open spec fn print_assign(a: VarAssign) -> Seq<char>
    decreases a,
{
    (if a.mutable { seq!['m', 'u', 't', ' '] } else { Seq::empty() }) + a.name@ + seq![' ', '=', ' ']
        + print_instr(*a.value)
}

/// `{`, one indented line per instruction, `}`. Every instruction ends with `;`
/// but the last of a block that is not a statement.
pub open spec fn print_block(b: Block) -> Seq<char>
    decreases b,
{
    let s = b.instructions@;
    let body = if s.len() == 0 {
        Seq::empty()
    } else {
        semi_lines(s.subrange(0, s.len() - 1)) + seq![' ', ' ', ' ', ' '] + print_instr(
            s[s.len() - 1],
        ) + (if b.is_statement { seq![';'] } else { Seq::empty() }) + seq!['\n']
    };
    seq!['{', '\n'] + body + seq!['}']
}

/// One indented line ending with `;` per instruction.
pub open spec fn semi_lines(s: Seq<Instr>) -> Seq<char>
    decreases s,
{
    if s.len() == 0 {
        Seq::empty()
    } else {
        semi_lines(s.subrange(0, s.len() - 1)) + seq![' ', ' ', ' ', ' '] + print_instr(
            s[s.len() - 1],
        ) + seq![';', '\n']
    }
}

/// The texts of the instructions, separated by `, `.
pub open spec fn join_args(s: Seq<Instr>) -> Seq<char>
    decreases s,
{
    if s.len() == 0 {
        Seq::empty()
    } else if s.len() == 1 {
        print_instr(s[0])
    } else {
        join_args(s.subrange(0, s.len() - 1)) + seq![',', ' '] + print_instr(s[s.len() - 1])
    }
}

/// `name: type` for each argument, separated by `, `.
pub open spec fn join_params(s: Seq<(String, TypeId)>) -> Seq<char>
    decreases s.len(),
{
    if s.len() == 0 {
        Seq::empty()
    } else if s.len() == 1 {
        s[0].0@ + seq![':', ' '] + s[0].1@
    } else {
        join_params(s.drop_last()) + seq![',', ' '] + s.last().0@ + seq![':', ' '] + s.last().1@
    }
}

/// `func name(params) -> type {...}`; without a return type, no arrow.
pub open spec fn print_fn_dec(d: FunctionDec) -> Seq<char>
    decreases d,
{
    seq!['f', 'u', 'n', 'c', ' '] + d.name@ + seq!['('] + join_params(d.args@) + seq![')', ' ']
        + match d.return_ty {
        Some(t) => seq!['-', '>', ' '] + t@ + seq![' '],
        None => Seq::empty(),
    } + print_block(d.body)
}

/// `name(args)`.
pub open spec fn print_call(c: FunctionCall) -> Seq<char>
    decreases c,
{
    c.name@ + seq!['('] + join_args(c.args@) + seq![')']
}

impl Instr {
    /// The node's source text.
    pub fn print(&self) -> (r: String)
        ensures
            r@ == print_instr(*self),
        decreases self,
    {
        match self {
            Instr::Const(v) => v.print(),
            Instr::BinaryOp(b) => b.print(),
            Instr::IfElse(ie) => ie.print(),
            Instr::Var(v) => v.name.clone(),
            Instr::VarAssign(a) => a.print(),
            Instr::Block(b) => b.print(),
            Instr::FunctionDec(d) => d.print(),
            Instr::FunctionCall(c) => c.print(),
            Instr::JkInst(j) => j.print(),
        }
    }
}

impl BinaryOp {
    /// `lhs op rhs`.
    pub fn print(&self) -> (r: String)
        ensures
            r@ == print_binop(*self),
        decreases self,
    {
        let mut r = self.lhs.print();
        r.append(" ");
        r.append(self.op.as_str());
        r.append(" ");
        let rhs = self.rhs.print();
        r.append(rhs.as_str());
        proof {
            reveal_strlit(" ");
            assert(r@ =~= print_binop(*self));
        }
        r
    }
}

impl IfElse {
    /// `if cond {...}`, with ` else {...}` when there is an `else` body.
    pub fn print(&self) -> (r: String)
        ensures
            r@ == print_if_else(*self),
        decreases self,
    {
        let mut r = String::from_str("if ");
        let c = self.condition.print();
        r.append(c.as_str());
        r.append(" ");
        let b = self.if_body.print();
        r.append(b.as_str());
        proof {
            reveal_strlit("if ");
            reveal_strlit(" ");
        }
        let ghost base = r@;
        assert(base =~= seq!['i', 'f', ' '] + print_instr(*self.condition) + seq![' '] + print_block(
            self.if_body,
        ));
        match &self.else_body {
            Some(e) => {
                r.append(" else ");
                let eb = e.print();
                r.append(eb.as_str());
                proof {
                    reveal_strlit(" else ");
                    assert(r@ =~= print_if_else(*self));
                }
            },
            None => {},
        }
        r
    }
}

impl VarAssign {
    /// `name = value`, with `mut ` first for a mutable binding.
    pub fn print(&self) -> (r: String)
        ensures
            r@ == print_assign(*self),
        decreases self,
    {
        let mut r = if self.mutable { String::from_str("mut ") } else { String::new() };
        r.append(self.name.as_str());
        r.append(" = ");
        let v = self.value.print();
        r.append(v.as_str());
        proof {
            reveal_strlit("mut ");
            reveal_strlit(" = ");
            assert(r@ =~= print_assign(*self));
        }
        r
    }
}

impl Block {
    /// `{`, one indented line per instruction, `}`.
    pub fn print(&self) -> (r: String)
        ensures
            r@ == print_block(*self),
        decreases self,
    {
        let n = self.instructions.len();
        let mut r = String::from_str("{\n");
        proof {
            reveal_strlit("{\n");
            reveal_strlit("    ");
            reveal_strlit(";\n");
            reveal_strlit(";");
            reveal_strlit("\n");
            reveal_strlit("}");
            assert("{\n"@ =~= seq!['{', '\n']);
            assert("    "@ =~= seq![' ', ' ', ' ', ' ']);
            assert(";\n"@ =~= seq![';', '\n']);
            assert(";"@ =~= seq![';']);
            assert("\n"@ =~= seq!['\n']);
            assert("}"@ =~= seq!['}']);
        }
        if n > 0 {
            let mut i: usize = 0;
            while i < n - 1
                invariant
                    n == self.instructions@.len(),
                    n > 0,
                    i <= n - 1,
                    r@ == seq!['{', '\n'] + semi_lines(self.instructions@.subrange(0, i as int)),
                decreases n - i,
            {
                proof {
                    assert(self.instructions@.subrange(0, i + 1).subrange(0, i as int) =~= self.instructions@.subrange(0, i as int));
                }
                let ghost r0 = r@;
                proof {
                    reveal_strlit("    ");
                    reveal_strlit(";\n");
                    assert("    "@ =~= seq![' ', ' ', ' ', ' ']);
                    assert(";\n"@ =~= seq![';', '\n']);
                }
                r.append("    ");
                let t = self.instructions[i].print();
                r.append(t.as_str());
                r.append(";\n");
                assert(self.instructions@.subrange(0, i + 1)[i as int] == self.instructions@[i as int]);
                assert(r@ =~= r0 + (seq![' ', ' ', ' ', ' '] + print_instr(self.instructions@[i as int]) + seq![';', '\n']));
                assert(r@ =~= seq!['{', '\n'] + semi_lines(self.instructions@.subrange(0, i + 1)));
                i = i + 1;
            }
            r.append("    ");
            let t = self.instructions[n - 1].print();
            r.append(t.as_str());
            if self.is_statement {
                r.append(";");
            }
            r.append("\n");
        }
        r.append("}");
        assert(r@ =~= print_block(*self));
        r
    }
}

impl FunctionDec {
    /// `func name(params) -> type {...}`.
    pub fn print(&self) -> (r: String)
        ensures
            r@ == print_fn_dec(*self),
        decreases self,
    {
        proof {
            reveal_strlit("func ");
            reveal_strlit("(");
            reveal_strlit(": ");
            reveal_strlit(", ");
            reveal_strlit(") ");
            reveal_strlit("-> ");
            reveal_strlit(" ");
            assert(", "@ =~= seq![',', ' ']);
            assert(": "@ =~= seq![':', ' ']);
            assert("func "@ =~= seq!['f', 'u', 'n', 'c', ' ']);
            assert("("@ =~= seq!['(']);
            assert(") "@ =~= seq![')', ' ']);
            assert("-> "@ =~= seq!['-', '>', ' ']);
            assert(" "@ =~= seq![' ']);
        }
        let mut r = String::from_str("func ");
        r.append(self.name.as_str());
        r.append("(");
        let ghost head = r@;
        let mut i: usize = 0;
        while i < self.args.len()
            invariant
                i <= self.args@.len(),
                r@ == head + join_params(self.args@.subrange(0, i as int)),
            decreases self.args@.len() - i,
        {
            proof {
                assert(self.args@.subrange(0, i + 1).drop_last() =~= self.args@.subrange(0, i as int));
            }
            let ghost r0 = r@;
            proof {
                reveal_strlit(", ");
                reveal_strlit(": ");
                assert(", "@ =~= seq![',', ' ']);
                assert(": "@ =~= seq![':', ' ']);
            }
            if i > 0 {
                r.append(", ");
            }
            let ghost r1 = r@;
            r.append(self.args[i].0.as_str());
            r.append(": ");
            r.append(self.args[i].1.id());
            assert(self.args@.subrange(0, i + 1)[i as int] == self.args@[i as int]);
            assert(r@ =~= r1 + (self.args@[i as int].0@ + seq![':', ' '] + self.args@[i as int].1@));
            assert(r@ =~= head + join_params(self.args@.subrange(0, i + 1)));
            i = i + 1;
        }
        assert(self.args@.subrange(0, i as int) =~= self.args@);
        r.append(") ");
        match &self.return_ty {
            Some(t) => {
                r.append("-> ");
                r.append(t.id());
                r.append(" ");
            },
            None => {},
        }
        let b = self.body.print();
        r.append(b.as_str());
        assert(r@ =~= print_fn_dec(*self));
        r
    }
}

impl FunctionCall {
    /// `name(args)`.
    pub fn print(&self) -> (r: String)
        ensures
            r@ == print_call(*self),
        decreases self,
    {
        proof {
            reveal_strlit("(");
            reveal_strlit(", ");
            reveal_strlit(")");
            assert(", "@ =~= seq![',', ' ']);
            assert("("@ =~= seq!['(']);
            assert(")"@ =~= seq![')']);
        }
        let mut r = self.name.clone();
        r.append("(");
        let ghost head = r@;
        let mut i: usize = 0;
        while i < self.args.len()
            invariant
                i <= self.args@.len(),
                r@ == head + join_args(self.args@.subrange(0, i as int)),
            decreases self.args@.len() - i,
        {
            proof {
                assert(self.args@.subrange(0, i + 1).subrange(0, i as int) =~= self.args@.subrange(0, i as int));
            }
            let ghost r0 = r@;
            proof {
                reveal_strlit(", ");
                assert(", "@ =~= seq![',', ' ']);
            }
            if i > 0 {
                r.append(", ");
            }
            let ghost r1 = r@;
            let t = self.args[i].print();
            r.append(t.as_str());
            assert(self.args@.subrange(0, i + 1)[i as int] == self.args@[i as int]);
            proof {
                if i == 0 {
                    assert(self.args@.subrange(0, 1)[0] == self.args@[0]);
                }
            }
            assert(r@ =~= head + join_args(self.args@.subrange(0, i + 1)));
            i = i + 1;
        }
        assert(self.args@.subrange(0, i as int) =~= self.args@);
        r.append(")");
        assert(r@ =~= print_call(*self));
        r
    }
}

impl JkInst {
    /// `@dump`, `@quit` or `@ir`.
    pub fn print(&self) -> (r: String)
        ensures
            r@ == directive_text(self.kind),
    {
        let t = match self.kind {
            JkInstKind::Dump => "@dump",
            JkInstKind::Quit => "@quit",
            JkInstKind::Ir => "@ir",
        };
        proof {
            reveal_strlit("@dump");
            reveal_strlit("@quit");
            reveal_strlit("@ir");
        }
        let r = String::from_str(t);
        assert(r@ =~= directive_text(self.kind));
        r
    }
}

} // verus!
