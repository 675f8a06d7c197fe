//! Static types ([`CheckedType`]) and the runtime envelope ([`ObjectInstance`])
//! that carries a value together with its type.

use vstd::prelude::*;

verus! {

/// The name of a nominal type (`bool`, `int`, `float`, `char`, `string`, or one
/// declared by the program).
#[derive(Debug, Clone)]
pub struct TypeId {
    pub id: String,
}

impl View for TypeId {
    type V = Seq<char>;

    open spec fn view(&self) -> Seq<char> {
        self.id@
    }
}

impl TypeId {
    /// The type named `name`.
    pub fn from(name: &str) -> (r: TypeId)
        ensures
            r@ == name@,
    {
        TypeId { id: String::from_str(name) }
    }

    /// The type's name.
    pub fn id(&self) -> (r: &str)
        ensures
            r@ == self@,
    {
        self.id.as_str()
    }

    /// A copy of the type name.
    pub fn copy(&self) -> (r: TypeId)
        ensures
            r@ == self@,
    {
        TypeId { id: self.id.clone() }
    }
}

/// What the type checker knows of a node's type.
#[derive(Debug, Clone)]
pub enum CheckedType {
    /// The node has this type.
    Resolved(TypeId),
    /// The node produces no value.
    Void,
    /// Not resolved yet.
    Unknown,
    /// Depends on a declaration that the first pass has not reached yet.
    Later,
    /// A type error was already reported for the node.
    Error,
}

/// The mathematical model of a [`CheckedType`].
pub enum TypeView {
    Resolved(Seq<char>),
    Void,
    Unknown,
    Later,
    Error,
}

impl View for CheckedType {
    type V = TypeView;

    open spec fn view(&self) -> TypeView {
        match self {
            CheckedType::Resolved(t) => TypeView::Resolved(t@),
            CheckedType::Void => TypeView::Void,
            CheckedType::Unknown => TypeView::Unknown,
            CheckedType::Later => TypeView::Later,
            CheckedType::Error => TypeView::Error,
        }
    }
}

pub open spec fn bool_name() -> Seq<char> {
    seq!['b', 'o', 'o', 'l']
}

pub open spec fn int_name() -> Seq<char> {
    seq!['i', 'n', 't']
}

pub open spec fn float_name() -> Seq<char> {
    seq!['f', 'l', 'o', 'a', 't']
}

pub open spec fn char_name() -> Seq<char> {
    seq!['c', 'h', 'a', 'r']
}

pub open spec fn string_name() -> Seq<char> {
    seq!['s', 't', 'r', 'i', 'n', 'g']
}

/// The name of a type as diagnostics show it.
pub open spec fn type_text(t: TypeView) -> Seq<char> {
    match t {
        TypeView::Resolved(n) => n,
        TypeView::Void => seq!['v', 'o', 'i', 'd'],
        TypeView::Unknown => seq!['!', '!', 'u', 'n', 'k', 'n', 'o', 'w', 'n', '!', '!'],
        TypeView::Later => seq!['!', '!', 'l', 'a', 't', 'e', 'r', '!', '!'],
        TypeView::Error => seq!['!', '!', 'e', 'r', 'r', 'o', 'r', '!', '!'],
    }
}

/// Whether a type is a marker that suppresses further diagnostics.
pub open spec fn is_marker(t: TypeView) -> bool {
    t is Later || t is Error
}

impl CheckedType {
    /// The resolved type named `name`.
    pub fn resolved(name: &str) -> (r: CheckedType)
        ensures
            r@ == TypeView::Resolved(name@),
    {
        CheckedType::Resolved(TypeId::from(name))
    }

    /// The primitive boolean type.
    pub fn boolean() -> (r: CheckedType)
        ensures
            r@ == TypeView::Resolved(bool_name()),
    {
        proof {
            reveal_strlit("bool");
        }
        let r = CheckedType::resolved("bool");
        assert(r@ == TypeView::Resolved(bool_name())) by {
            assert("bool"@ =~= bool_name());
        }
        r
    }

    /// A copy of the type.
    pub fn copy(&self) -> (r: CheckedType)
        ensures
            r@ == self@,
    {
        match self {
            CheckedType::Resolved(t) => CheckedType::Resolved(t.copy()),
            CheckedType::Void => CheckedType::Void,
            CheckedType::Unknown => CheckedType::Unknown,
            CheckedType::Later => CheckedType::Later,
            CheckedType::Error => CheckedType::Error,
        }
    }

    /// Whether the type is the deferred marker.
    pub fn is_later(&self) -> (r: bool)
        ensures
            r == (self@ is Later),
    {
        matches!(self, CheckedType::Later)
    }

    /// Whether the type is the error marker.
    pub fn is_error(&self) -> (r: bool)
        ensures
            r == (self@ is Error),
    {
        matches!(self, CheckedType::Error)
    }

    /// Whether the type is `Void`.
    pub fn is_void(&self) -> (r: bool)
        ensures
            r == (self@ is Void),
    {
        matches!(self, CheckedType::Void)
    }

    /// The type's name as shown in diagnostics.
    pub fn name(&self) -> (r: &str)
        ensures
            r@ == type_text(self@),
    {
        let r = match self {
            CheckedType::Resolved(t) => t.id(),
            CheckedType::Void => "void",
            CheckedType::Unknown => "!!unknown!!",
            CheckedType::Later => "!!later!!",
            CheckedType::Error => "!!error!!",
        };
        proof {
            reveal_strlit("void");
            reveal_strlit("!!unknown!!");
            reveal_strlit("!!later!!");
            reveal_strlit("!!error!!");
        }
        assert(r@ =~= type_text(self@));
        r
    }
}

impl Default for CheckedType {
    fn default() -> (r: CheckedType)
        ensures
            r@ == TypeView::Unknown,
    {
        CheckedType::Unknown
    }
}

impl PartialEq for CheckedType {
    fn eq(&self, o: &CheckedType) -> bool {
        match (self, o) {
            (CheckedType::Resolved(a), CheckedType::Resolved(b)) => a.id == b.id,
            (CheckedType::Void, CheckedType::Void) => true,
            (CheckedType::Unknown, CheckedType::Unknown) => true,
            (CheckedType::Later, CheckedType::Later) => true,
            (CheckedType::Error, CheckedType::Error) => true,
            _ => false,
        }
    }
}

impl vstd::std_specs::cmp::PartialEqSpecImpl for CheckedType {
    open spec fn obeys_eq_spec() -> bool {
        true
    }

    open spec fn eq_spec(&self, o: &CheckedType) -> bool {
        self@ == o@
    }
}

/// A single character value.
#[derive(Debug, Clone, Copy, PartialEq, Eq, Structural)]
pub struct JinkChar(pub char);

impl JinkChar {
    /// The character value `c`.
    pub fn from(c: char) -> (r: JinkChar)
        ensures
            r.0 == c,
    {
        JinkChar(c)
    }

    /// A character literal is an expression.
    pub fn kind(&self) -> (r: crate::nodes::InstrKind)
        ensures
            r == crate::nodes::InstrKind::Expression,
    {
        crate::nodes::InstrKind::Expression
    }

    /// The character itself, as text.
    pub fn print(&self) -> (r: String)
        ensures
            r@ == seq![self.0],
    {
        char_text(self.0)
    }
}

/// Relies on `char::to_string`: the string made of that one character.
#[verifier::external_body]
fn char_text(c: char) -> (r: String)
    ensures
        r@ == seq![c],
{
    c.to_string()
}

/// The decimal digit for `d` (below ten).
pub open spec fn digit_char(d: nat) -> char {
    if d == 0 { '0' }
    else if d == 1 { '1' }
    else if d == 2 { '2' }
    else if d == 3 { '3' }
    else if d == 4 { '4' }
    else if d == 5 { '5' }
    else if d == 6 { '6' }
    else if d == 7 { '7' }
    else if d == 8 { '8' }
    else { '9' }
}

/// The decimal digits of a natural number, most significant first.
pub open spec fn digits_of(n: nat) -> Seq<char>
    decreases n,
{
    if n < 10 {
        seq![digit_char(n)]
    } else {
        digits_of(n / 10).push(digit_char(n % 10))
    }
}

/// The decimal text of an integer, with a leading `-` when negative.
pub open spec fn decimal_text(i: int) -> Seq<char> {
    if i < 0 {
        seq!['-'] + digits_of((-i) as nat)
    } else {
        digits_of(i as nat)
    }
}

/// Relies on `i64::to_string`: the integer in decimal, `-` first when negative.
#[verifier::external_body]
fn int_text(i: i64) -> (r: String)
    ensures
        r@ == decimal_text(i as int),
{
    i.to_string()
}

/// A runtime value of one of the primitive types. A float is kept as the text
/// of its literal: this core does not compute on floats.
#[derive(Debug, Clone)]
pub enum Value {
    Int(i64),
    Float(String),
    Bool(bool),
    Char(JinkChar),
    Str(String),
}

/// The mathematical model of a [`Value`].
pub enum ValueView {
    Int(i64),
    Float(Seq<char>),
    Bool(bool),
    Char(char),
    Str(Seq<char>),
}

impl View for Value {
    type V = ValueView;

    open spec fn view(&self) -> ValueView {
        match self {
            Value::Int(i) => ValueView::Int(*i),
            Value::Float(s) => ValueView::Float(s@),
            Value::Bool(b) => ValueView::Bool(*b),
            Value::Char(c) => ValueView::Char(c.0),
            Value::Str(s) => ValueView::Str(s@),
        }
    }
}

/// The name of the primitive type of a value.
pub open spec fn type_name_of(v: ValueView) -> Seq<char> {
    match v {
        ValueView::Int(_) => int_name(),
        ValueView::Float(_) => float_name(),
        ValueView::Bool(_) => bool_name(),
        ValueView::Char(_) => char_name(),
        ValueView::Str(_) => string_name(),
    }
}

/// The source text of a value.
pub open spec fn value_text(v: ValueView) -> Seq<char> {
    match v {
        ValueView::Int(i) => decimal_text(i as int),
        ValueView::Float(s) => s,
        ValueView::Bool(b) => if b {
            seq!['t', 'r', 'u', 'e']
        } else {
            seq!['f', 'a', 'l', 's', 'e']
        },
        ValueView::Char(c) => seq![c],
        ValueView::Str(s) => seq!['"'] + s + seq!['"'],
    }
}

impl Value {
    /// A copy of the value.
    pub fn copy(&self) -> (r: Value)
        ensures
            r@ == self@,
    {
        match self {
            Value::Int(i) => Value::Int(*i),
            Value::Float(s) => Value::Float(s.clone()),
            Value::Bool(b) => Value::Bool(*b),
            Value::Char(c) => Value::Char(*c),
            Value::Str(s) => Value::Str(s.clone()),
        }
    }

    /// The primitive type of the value.
    pub fn type_of(&self) -> (r: CheckedType)
        ensures
            r@ == TypeView::Resolved(type_name_of(self@)),
    {
        let name = match self {
            Value::Int(_) => "int",
            Value::Float(_) => "float",
            Value::Bool(_) => "bool",
            Value::Char(_) => "char",
            Value::Str(_) => "string",
        };
        proof {
            reveal_strlit("int");
            reveal_strlit("float");
            reveal_strlit("bool");
            reveal_strlit("char");
            reveal_strlit("string");
        }
        assert(name@ =~= type_name_of(self@));
        CheckedType::resolved(name)
    }

    /// The value as source text.
    pub fn print(&self) -> (r: String)
        ensures
            r@ == value_text(self@),
    {
        match self {
            Value::Int(i) => int_text(*i),
            Value::Float(s) => s.clone(),
            Value::Bool(b) => {
                let t = if *b { "true" } else { "false" };
                proof {
                    reveal_strlit("true");
                    reveal_strlit("false");
                }
                let r = String::from_str(t);
                assert(r@ =~= value_text(self@));
                r
            },
            Value::Char(c) => c.print(),
            Value::Str(s) => {
                let mut r = String::from_str("\"");
                r.append(s.as_str());
                r.append("\"");
                proof {
                    reveal_strlit("\"");
                }
                assert(r@ =~= value_text(self@));
                r
            },
        }
    }
}

impl PartialEq for Value {
    fn eq(&self, o: &Value) -> bool {
        match (self, o) {
            (Value::Int(a), Value::Int(b)) => *a == *b,
            (Value::Float(a), Value::Float(b)) => *a == *b,
            (Value::Bool(a), Value::Bool(b)) => *a == *b,
            (Value::Char(a), Value::Char(b)) => a.0 == b.0,
            (Value::Str(a), Value::Str(b)) => *a == *b,
            _ => false,
        }
    }
}

impl vstd::std_specs::cmp::PartialEqSpecImpl for Value {
    open spec fn obeys_eq_spec() -> bool {
        true
    }

    open spec fn eq_spec(&self, o: &Value) -> bool {
        self@ == o@
    }
}

/// The runtime envelope: a value, when there is one, tagged with its type.
#[derive(Debug, Clone)]
pub struct ObjectInstance {
    pub ty: CheckedType,
    pub value: Option<Value>,
}

/// The mathematical model of an [`ObjectInstance`].
pub struct InstanceView {
    pub ty: TypeView,
    pub value: Option<ValueView>,
}

impl View for ObjectInstance {
    type V = InstanceView;

    open spec fn view(&self) -> InstanceView {
        InstanceView {
            ty: self.ty@,
            value: match self.value {
                Some(v) => Some(v@),
                None => None,
            },
        }
    }
}

/// The instance of a value: the value tagged with its primitive type.
pub open spec fn instance_of(v: ValueView) -> InstanceView {
    InstanceView { ty: TypeView::Resolved(type_name_of(v)), value: Some(v) }
}

impl ObjectInstance {
    /// The placeholder instance: no value, type `Unknown`.
    pub fn empty() -> (r: ObjectInstance)
        ensures
            r@ == (InstanceView { ty: TypeView::Unknown, value: None }),
    {
        ObjectInstance { ty: CheckedType::Unknown, value: None }
    }

    /// The instance holding `v`, tagged with its primitive type.
    pub fn from_value(v: Value) -> (r: ObjectInstance)
        ensures
            r@ == instance_of(v@),
    {
        let ty = v.type_of();
        ObjectInstance { ty, value: Some(v) }
    }

    /// The instance's type tag.
    pub fn ty(&self) -> (r: &CheckedType)
        ensures
            r@ == self@.ty,
    {
        &self.ty
    }

    /// Retags the instance.
    pub fn set_ty(&mut self, ty: CheckedType)
        ensures
            final(self)@ == (InstanceView { ty: ty@, value: old(self)@.value }),
    {
        self.ty = ty;
    }

    /// The value carried, if any.
    pub fn value(&self) -> (r: Option<&Value>)
        ensures
            match r {
                Some(v) => self@.value == Some(v@),
                None => self@.value is None,
            },
    {
        match &self.value {
            Some(v) => Some(v),
            None => None,
        }
    }

    /// A copy of the instance: later changes to either leave the other as it is.
    pub fn copy(&self) -> (r: ObjectInstance)
        ensures
            r@ == self@,
    {
        let value = match &self.value {
            Some(v) => Some(v.copy()),
            None => None,
        };
        ObjectInstance { ty: self.ty.copy(), value }
    }

    /// The value as source text; the empty text for the placeholder.
    pub fn as_string(&self) -> (r: String)
        ensures
            r@ == match self@.value {
                Some(v) => value_text(v),
                None => Seq::<char>::empty(),
            },
    {
        match &self.value {
            Some(v) => v.print(),
            None => String::new(),
        }
    }
}

impl PartialEq for ObjectInstance {
    fn eq(&self, o: &ObjectInstance) -> bool {
        let same_value = match (&self.value, &o.value) {
            (Some(a), Some(b)) => a.eq(b),
            (None, None) => true,
            _ => false,
        };
        self.ty.eq(&o.ty) && same_value
    }
}

impl vstd::std_specs::cmp::PartialEqSpecImpl for ObjectInstance {
    open spec fn obeys_eq_spec() -> bool {
        true
    }

    open spec fn eq_spec(&self, o: &ObjectInstance) -> bool {
        self@ == o@
    }
}

} // verus!
