//! The binary operators, with their precedence and associativity.

use vstd::prelude::*;

verus! {

/// All the binary operators. The parentheses are pseudo-operators that only the
/// parsing layer uses: they have no meaning when resolving or executing.
#[derive(Debug, Clone, Copy, PartialEq, Eq, Structural)]
pub enum Operator {
    Add,
    Sub,
    Mul,
    Div,
    LeftParenthesis,
    RightParenthesis,
    Equals,
    NotEquals,
}

/// The canonical text of an operator.
pub open spec fn operator_text(op: Operator) -> Seq<char> {
    match op {
        Operator::Add => seq!['+'],
        Operator::Sub => seq!['-'],
        Operator::Mul => seq!['*'],
        Operator::Div => seq!['/'],
        Operator::LeftParenthesis => seq!['('],
        Operator::RightParenthesis => seq![')'],
        Operator::Equals => seq!['=', '='],
        Operator::NotEquals => seq!['!', '='],
    }
}

/// The operator whose canonical text is `s`, if there is one.
pub open spec fn operator_of_text(s: Seq<char>) -> Option<Operator> {
    if s == seq!['+'] {
        Some(Operator::Add)
    } else if s == seq!['-'] {
        Some(Operator::Sub)
    } else if s == seq!['*'] {
        Some(Operator::Mul)
    } else if s == seq!['/'] {
        Some(Operator::Div)
    } else if s == seq!['('] {
        Some(Operator::LeftParenthesis)
    } else if s == seq![')'] {
        Some(Operator::RightParenthesis)
    } else if s == seq!['=', '='] {
        Some(Operator::Equals)
    } else if s == seq!['!', '='] {
        Some(Operator::NotEquals)
    } else {
        None
    }
}

/// Shunting-yard precedence: multiplicative above additive above comparison.
pub open spec fn precedence_of(op: Operator) -> u8 {
    match op {
        Operator::Mul | Operator::Div => 3,
        Operator::Add | Operator::Sub => 2,
        Operator::Equals | Operator::NotEquals => 0,
        Operator::LeftParenthesis | Operator::RightParenthesis => 0,
    }
}

impl Operator {
    /// Reads an operator from its text; `None` when the text is no operator.
    pub fn parse(s: &str) -> (r: Option<Operator>)
        ensures
            r == operator_of_text(s@),
    {
        let n = s.unicode_len();
        if n == 1 {
            let c = s.get_char(0);
            assert(s@ =~= seq![c]);
            if c == '+' {
                Some(Operator::Add)
            } else if c == '-' {
                Some(Operator::Sub)
            } else if c == '*' {
                Some(Operator::Mul)
            } else if c == '/' {
                Some(Operator::Div)
            } else if c == '(' {
                Some(Operator::LeftParenthesis)
            } else if c == ')' {
                Some(Operator::RightParenthesis)
            } else {
                assert(s@ != seq!['=', '=']);
                assert(s@ != seq!['!', '=']);
                None
            }
        } else if n == 2 {
            let a = s.get_char(0);
            let b = s.get_char(1);
            assert(s@ =~= seq![a, b]);
            if a == '=' && b == '=' {
                Some(Operator::Equals)
            } else if a == '!' && b == '=' {
                Some(Operator::NotEquals)
            } else {
                assert(s@ != seq!['=', '=']);
                assert(s@ != seq!['!', '=']);
                None
            }
        } else {
            assert(s@.len() != 1 && s@.len() != 2);
            assert(s@ != seq!['=', '=']);
            assert(s@ != seq!['+']);
            None
        }
    }

    /// The operator written `s`. The text must be one of the operators.
    pub fn new(s: &str) -> (r: Operator)
        requires
            operator_of_text(s@).is_some(),
        ensures
            Some(r) == operator_of_text(s@),
    {
        match Operator::parse(s) {
            Some(op) => op,
            None => {
                assert(false);
                Operator::Add
            },
        }
    }

    /// The operator's canonical text.
    pub fn as_str(&self) -> (r: &'static str)
        ensures
            r@ == operator_text(*self),
    {
        let r = match self {
            Operator::Add => "+",
            Operator::Sub => "-",
            Operator::Mul => "*",
            Operator::Div => "/",
            Operator::LeftParenthesis => "(",
            Operator::RightParenthesis => ")",
            Operator::Equals => "==",
            Operator::NotEquals => "!=",
        };
        proof {
            reveal_strlit("+");
            reveal_strlit("-");
            reveal_strlit("*");
            reveal_strlit("/");
            reveal_strlit("(");
            reveal_strlit(")");
            reveal_strlit("==");
            reveal_strlit("!=");
        }
        assert(r@ =~= operator_text(*self));
        r
    }

    /// The operator's precedence according to the shunting-yard algorithm.
    pub fn precedence(&self) -> (r: u8)
        ensures
            r == precedence_of(*self),
    {
        match self {
            Operator::Mul | Operator::Div => 3,
            Operator::Add | Operator::Sub => 2,
            Operator::Equals | Operator::NotEquals => 0,
            Operator::LeftParenthesis | Operator::RightParenthesis => 0,
        }
    }

    /// Every operator of the current set associates to the left.
    pub fn is_left_associative(&self) -> (r: bool)
        ensures
            r,
    {
        true
    }
}

/// Reading an operator's canonical text gives the operator back.
pub proof fn lemma_text_round_trip(op: Operator)
    ensures
        operator_of_text(operator_text(op)) == Some(op),
{
    let t = operator_text(op);
    assert(seq!['+'][0] == '+' && seq!['-'][0] == '-' && seq!['*'][0] == '*');
    assert(seq!['/'][0] == '/' && seq!['('][0] == '(' && seq![')'][0] == ')');
    assert(seq!['=', '='][0] == '=' && seq!['!', '='][0] == '!');
    assert(t.len() >= 1 && t[0] == operator_text(op)[0]);
}

} // verus!
