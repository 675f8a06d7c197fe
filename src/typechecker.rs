//! The type context: declared types per scope and per namespace (variables,
//! functions, custom types), the diagnostics of the type checker, and the flag of
//! the two-pass protocol.

use vstd::prelude::*;
use crate::error::{ErrKind, Error};
use crate::instance::{CheckedType, TypeView};

verus! {

/// A list of named types: arguments of a function, fields of a custom type.
pub type NamedTypes = Vec<(String, CheckedType)>;

/// The model of a [`NamedTypes`] list.
pub open spec fn named_view(v: Seq<(String, CheckedType)>) -> Seq<(Seq<char>, TypeView)> {
    v.map_values(|p: (String, CheckedType)| (p.0@, p.1@))
}

/// A declared function: its ordered arguments and its return type.
pub struct FunctionType {
    pub args_ty: NamedTypes,
    pub return_ty: CheckedType,
}

/// A declared custom type: the type itself and its ordered fields.
pub struct CustomTypeType {
    pub self_ty: CheckedType,
    pub fields_ty: NamedTypes,
}

/// The model of a [`FunctionType`].
pub struct FnView {
    pub args: Seq<(Seq<char>, TypeView)>,
    pub ret: TypeView,
}

/// The model of a [`CustomTypeType`].
pub struct TyDeclView {
    pub self_ty: TypeView,
    pub fields: Seq<(Seq<char>, TypeView)>,
}

impl View for FunctionType {
    type V = FnView;

    open spec fn view(&self) -> FnView {
        FnView { args: named_view(self.args_ty@), ret: self.return_ty@ }
    }
}

impl View for CustomTypeType {
    type V = TyDeclView;

    open spec fn view(&self) -> TyDeclView {
        TyDeclView { self_ty: self.self_ty@, fields: named_view(self.fields_ty@) }
    }
}

/// One lexical scope of declarations, in the order they were made.
pub struct TcScope {
    pub vars: Vec<(String, CheckedType)>,
    pub functions: Vec<(String, FunctionType)>,
    pub types: Vec<(String, CustomTypeType)>,
}

/// The model of a [`TcScope`].
pub struct ScopeView {
    pub vars: Seq<(Seq<char>, TypeView)>,
    pub functions: Seq<(Seq<char>, FnView)>,
    pub types: Seq<(Seq<char>, TyDeclView)>,
}

impl View for TcScope {
    type V = ScopeView;

    open spec fn view(&self) -> ScopeView {
        ScopeView {
            vars: named_view(self.vars@),
            functions: self.functions@.map_values(|p: (String, FunctionType)| (p.0@, p.1@)),
            types: self.types@.map_values(|p: (String, CustomTypeType)| (p.0@, p.1@)),
        }
    }
}

/// The empty scope.
pub open spec fn empty_scope() -> ScopeView {
    ScopeView { vars: Seq::empty(), functions: Seq::empty(), types: Seq::empty() }
}

/// The most recent entry named `name` in a list of declarations.
pub open spec fn lookup<V>(s: Seq<(Seq<char>, V)>, name: Seq<char>) -> Option<V>
    decreases s.len(),
{
    if s.len() == 0 {
        None
    } else if s.last().0 == name {
        Some(s.last().1)
    } else {
        lookup(s.drop_last(), name)
    }
}

/// The type of variable `name`, searched from the innermost scope outwards.
pub open spec fn lookup_var(scopes: Seq<ScopeView>, name: Seq<char>) -> Option<TypeView>
    decreases scopes.len(),
{
    if scopes.len() == 0 {
        None
    } else {
        match lookup(scopes.last().vars, name) {
            Some(t) => Some(t),
            None => lookup_var(scopes.drop_last(), name),
        }
    }
}

/// Function `name`, searched from the innermost scope outwards.
pub open spec fn lookup_function(scopes: Seq<ScopeView>, name: Seq<char>) -> Option<FnView>
    decreases scopes.len(),
{
    if scopes.len() == 0 {
        None
    } else {
        match lookup(scopes.last().functions, name) {
            Some(f) => Some(f),
            None => lookup_function(scopes.drop_last(), name),
        }
    }
}

/// Custom type `name`, searched from the innermost scope outwards.
pub open spec fn lookup_type(scopes: Seq<ScopeView>, name: Seq<char>) -> Option<TyDeclView>
    decreases scopes.len(),
{
    if scopes.len() == 0 {
        None
    } else {
        match lookup(scopes.last().types, name) {
            Some(t) => Some(t),
            None => lookup_type(scopes.drop_last(), name),
        }
    }
}

/// The model of a [`TypeCtx`]: its scopes, innermost last, the kinds of the
/// diagnostics recorded so far, and whether the second pass has started.
pub struct TcView {
    pub scopes: Seq<ScopeView>,
    pub errors: Seq<ErrKind>,
    pub second_pass: bool,
}

impl TcView {
    /// The innermost scope.
    pub open spec fn current(self) -> ScopeView {
        self.scopes.last()
    }

    /// The same context with the innermost scope replaced.
    pub open spec fn with_current(self, s: ScopeView) -> TcView {
        TcView { scopes: self.scopes.update(self.scopes.len() - 1, s), ..self }
    }

    /// The same context with one more diagnostic of kind `k`.
    pub open spec fn with_error(self, k: ErrKind) -> TcView {
        TcView { errors: self.errors.push(k), ..self }
    }

    /// A declaration of variable `name` is refused: the name is in the innermost
    /// scope already and the first pass is running.
    pub open spec fn var_clash(self, name: Seq<char>) -> bool {
        lookup(self.current().vars, name) is Some && !self.second_pass
    }

    /// The context after declaring variable `name`: unchanged when the name is in
    /// the innermost scope already.
    pub open spec fn add_var(self, name: Seq<char>, ty: TypeView) -> TcView {
        if lookup(self.current().vars, name) is Some {
            self
        } else {
            self.with_current(ScopeView { vars: self.current().vars.push((name, ty)), ..self.current() })
        }
    }

    /// The context with a fresh entry for variable `name` in the innermost scope,
    /// which hides any earlier one there.
    pub open spec fn pushed_var(self, name: Seq<char>, ty: TypeView) -> TcView {
        self.with_current(ScopeView { vars: self.current().vars.push((name, ty)), ..self.current() })
    }

    pub open spec fn function_clash(self, name: Seq<char>) -> bool {
        lookup(self.current().functions, name) is Some && !self.second_pass
    }

    pub open spec fn add_function(self, name: Seq<char>, f: FnView) -> TcView {
        if lookup(self.current().functions, name) is Some {
            self
        } else {
            self.with_current(
                ScopeView { functions: self.current().functions.push((name, f)), ..self.current() },
            )
        }
    }

    pub open spec fn type_clash(self, name: Seq<char>) -> bool {
        lookup(self.current().types, name) is Some && !self.second_pass
    }

    pub open spec fn add_type(self, name: Seq<char>, t: TyDeclView) -> TcView {
        if lookup(self.current().types, name) is Some {
            self
        } else {
            self.with_current(
                ScopeView { types: self.current().types.push((name, t)), ..self.current() },
            )
        }
    }

    /// The context after entering a scope.
    pub open spec fn entered(self) -> TcView {
        TcView { scopes: self.scopes.push(empty_scope()), ..self }
    }

    /// The context after leaving a scope; the outermost scope is never left.
    pub open spec fn exited(self) -> TcView {
        if self.scopes.len() > 1 {
            TcView { scopes: self.scopes.drop_last(), ..self }
        } else {
            self
        }
    }
}

/// Keeps track of the declared types of each scope, so that instructions can
/// resolve their own types, and gathers the diagnostics of the type checker.
pub struct TypeCtx {
    pub(crate) errors: Vec<Error>,
    scopes: Vec<TcScope>,
    is_second_pass: bool,
    path: Option<String>,
    /// Paths brought in so far; only membership matters. A list, because vstd
    /// models hash-set membership for integer-like keys only, not for `String`.
    included: Vec<String>,
}

impl View for TypeCtx {
    type V = TcView;

    closed spec fn view(&self) -> TcView {
        TcView {
            scopes: self.scopes@.map_values(|s: TcScope| s@),
            errors: self.errors@.map_values(|e: Error| e.kind),
            second_pass: self.is_second_pass,
        }
    }
}

/// The primitive types that every context knows from the start.
pub open spec fn primitive_names() -> Seq<Seq<char>> {
    seq![
        crate::instance::bool_name(),
        crate::instance::int_name(),
        crate::instance::float_name(),
        crate::instance::char_name(),
        crate::instance::string_name(),
    ]
}

/// When entry `i` is the last one named `name`, the lookup finds it; when no
/// entry is named `name`, the lookup finds nothing.
proof fn lemma_lookup_at<V>(s: Seq<(Seq<char>, V)>, name: Seq<char>, i: int)
    requires
        -1 <= i < s.len(),
        i >= 0 ==> s[i].0 == name,
        forall|j: int| i < j < s.len() ==> s[j].0 != name,
    ensures
        lookup(s, name) == if i >= 0 { Some(s[i].1) } else { None::<V> },
    decreases s.len(),
{
    if s.len() > 0 && s.len() - 1 != i {
        lemma_lookup_at(s.drop_last(), name, i);
    }
}

/// The index of the last entry named `name`.
fn find_last<X>(v: &Vec<(String, X)>, name: &String) -> (r: Option<usize>)
    ensures
        match r {
            Some(i) => i < v.len() && v@[i as int].0@ == name@ && forall|j: int|
                i < j < v.len() ==> v@[j].0@ != name@,
            None => forall|j: int| 0 <= j < v.len() ==> v@[j].0@ != name@,
        },
{
    let mut i: usize = v.len();
    while i > 0
        invariant
            i <= v.len(),
            forall|j: int| i <= j < v.len() ==> v@[j].0@ != name@,
        decreases i,
    {
        if v[i - 1].0 == *name {
            return Some(i - 1);
        }
        i = i - 1;
    }
    None
}

/// Looks a name up in one list of typed declarations.
fn find_named<'a, X: View>(v: &'a Vec<(String, X)>, name: &String) -> (r: Option<&'a X>)
    ensures
        match r {
            Some(x) => lookup(v@.map_values(|p: (String, X)| (p.0@, p.1@)), name@) == Some(x@),
            None => lookup(v@.map_values(|p: (String, X)| (p.0@, p.1@)), name@) is None,
        },
{
    let ghost s = v@.map_values(|p: (String, X)| (p.0@, p.1@));
    match find_last(v, name) {
        Some(i) => {
            proof {
                lemma_lookup_at(s, name@, i as int);
            }
            Some(&v[i].1)
        },
        None => {
            proof {
                lemma_lookup_at(s, name@, -1);
            }
            None
        },
    }
}

impl TypeCtx {
    /// The diagnostics recorded so far, oldest first.
    pub closed spec fn records(&self) -> Seq<Error> {
        self.errors@
    }

    /// The model's diagnostics are the kinds of the recorded ones.
    pub proof fn lemma_records(&self)
        ensures
            self@.errors == self.records().map_values(|e: Error| e.kind),
    {
    }

    /// The context always holds its outermost scope.
    pub open spec fn wf(&self) -> bool {
        self@.scopes.len() >= 1
    }

    /// The path the context was created for, if any.
    pub closed spec fn path_view(&self) -> Option<Seq<char>> {
        match self.path {
            Some(p) => Some(p@),
            None => None,
        }
    }

    /// The paths recorded as included.
    pub closed spec fn included_view(&self) -> Seq<Seq<char>> {
        self.included@.map_values(|p: String| p@)
    }

    /// A context with one scope, in which the primitive types are declared, each
    /// as the resolved type of its own name and without fields.
    pub fn new() -> (r: TypeCtx)
        ensures
            r.wf(),
            r@.scopes.len() == 1,
            r@.errors.len() == 0,
            !r@.second_pass,
            r@.current().vars.len() == 0,
            r@.current().functions.len() == 0,
            r@.current().types.len() == 5,
            forall|i: int| 0 <= i < 5 ==> r@.current().types[i] == (primitive_names()[i], TyDeclView {
                self_ty: TypeView::Resolved(primitive_names()[i]),
                fields: Seq::empty(),
            }),
            r.path_view() is None,
            r.included_view().len() == 0,
            r.records().len() == 0,
    {
        let mut ctx = TypeCtx {
            errors: Vec::new(),
            scopes: Vec::new(),
            is_second_pass: false,
            path: None,
            included: Vec::new(),
        };
        ctx.scopes.push(TcScope { vars: Vec::new(), functions: Vec::new(), types: Vec::new() });
        let names = ["bool", "int", "float", "char", "string"];
        proof {
            reveal_strlit("bool");
            reveal_strlit("int");
            reveal_strlit("float");
            reveal_strlit("char");
            reveal_strlit("string");
            assert(names@[0]@ =~= primitive_names()[0]);
            assert(names@[1]@ =~= primitive_names()[1]);
            assert(names@[2]@ =~= primitive_names()[2]);
            assert(names@[3]@ =~= primitive_names()[3]);
            assert(names@[4]@ =~= primitive_names()[4]);
        }
        let mut k: usize = 0;
        while k < 5
            invariant
                0 <= k <= 5,
                names@.len() == 5,
                forall|i: int| 0 <= i < 5 ==> names@[i]@ == primitive_names()[i],
                ctx.wf(),
                ctx.scopes@.len() == 1,
                ctx.errors@.len() == 0,
                !ctx.is_second_pass,
                ctx.path is None,
                ctx.included@.len() == 0,
                ctx@.current().vars.len() == 0,
                ctx@.current().functions.len() == 0,
                ctx@.current().types.len() == k,
                forall|i: int| 0 <= i < k ==> ctx@.current().types[i] == (primitive_names()[i], TyDeclView {
                    self_ty: TypeView::Resolved(primitive_names()[i]),
                    fields: Seq::empty(),
                }),
            decreases 5 - k,
        {
            let name = names[k];
            let ghost before = ctx@.current().types;
            let mut scope = ctx.scopes.pop().unwrap();
            assert(scope@.types == before);
            let decl = CustomTypeType { self_ty: CheckedType::resolved(name), fields_ty: Vec::new() };
            let entry = (String::from_str(name), decl);
            let ghost ev = (entry.0@, entry.1@);
            scope.types.push(entry);
            assert(scope@.types =~= before.push(ev));
            ctx.scopes.push(scope);
            proof {
                assert(decl@.fields =~= Seq::<(Seq<char>, TypeView)>::empty());
                assert(ctx@.current() == scope@);
            }
            k = k + 1;
        }
        ctx
    }

    /// Marks the start of the second pass, in which redeclarations are tolerated.
    pub fn start_second_pass(&mut self)
        requires
            old(self).wf(),
        ensures
            final(self).wf(),
            final(self).records() == old(self).records(),
            final(self)@ == (TcView { second_pass: true, ..old(self)@ }),
    {
        self.is_second_pass = true;
    }

    /// Whether the second pass has started.
    pub fn is_second_pass(&self) -> (r: bool)
        ensures
            r == self@.second_pass,
    {
        self.is_second_pass
    }

    /// Records the path the program was read from.
    pub fn set_path(&mut self, path: Option<String>)
        requires
            old(self).wf(),
        ensures
            final(self).wf(),
            final(self).records() == old(self).records(),
            final(self)@ == old(self)@,
            final(self).path_view() == (match path {
                Some(p) => Some(p@),
                None => None::<Seq<char>>,
            }),
            final(self).included_view() == old(self).included_view(),
    {
        self.path = path;
    }

    /// The path the program was read from.
    pub fn path(&self) -> (r: Option<&String>)
        ensures
            match r {
                Some(p) => self.path_view() == Some(p@),
                None => self.path_view() is None,
            },
    {
        match &self.path {
            Some(p) => Some(p),
            None => None,
        }
    }

    /// Records that `path` has been brought into the program.
    pub fn mark_included(&mut self, path: String)
        requires
            old(self).wf(),
        ensures
            final(self).wf(),
            final(self).records() == old(self).records(),
            final(self)@ == old(self)@,
            final(self).path_view() == old(self).path_view(),
            final(self).included_view() == old(self).included_view().push(path@),
    {
        let ghost p = path@;
        self.included.push(path);
        proof {
            assert(self.included_view() =~= old(self).included_view().push(p));
        }
    }

    /// Whether `path` has been included.
    pub fn is_included(&self, path: &str) -> (r: bool)
        ensures
            r == self.included_view().contains(path@),
    {
        let p = String::from_str(path);
        let mut i: usize = 0;
        while i < self.included.len()
            invariant
                i <= self.included@.len(),
                p@ == path@,
                forall|j: int| 0 <= j < i ==> self.included@[j]@ != path@,
            decreases self.included@.len() - i,
        {
            if self.included[i] == p {
                assert(self.included_view()[i as int] == path@);
                return true;
            }
            i = i + 1;
        }
        proof {
            if self.included_view().contains(path@) {
                let j = choose|j: int| 0 <= j < self.included_view().len() && self.included_view()[j] == path@;
                assert(self.included@[j]@ == path@);
            }
        }
        false
    }

    /// Enters a new scope.
    pub fn scope_enter(&mut self)
        requires
            old(self).wf(),
        ensures
            final(self).wf(),
            final(self).records() == old(self).records(),
            final(self)@ == old(self)@.entered(),
    {
        let e = TcScope { vars: Vec::new(), functions: Vec::new(), types: Vec::new() };
        assert(e@ == empty_scope()) by {
            assert(e@.vars =~= Seq::<(Seq<char>, TypeView)>::empty());
            assert(e@.functions =~= Seq::<(Seq<char>, FnView)>::empty());
            assert(e@.types =~= Seq::<(Seq<char>, TyDeclView)>::empty());
        }
        self.scopes.push(e);
        assert(self@.scopes =~= old(self)@.entered().scopes);
    }

    /// Leaves the innermost scope; the outermost one is kept.
    pub fn scope_exit(&mut self)
        requires
            old(self).wf(),
        ensures
            final(self).wf(),
            final(self).records() == old(self).records(),
            final(self)@ == old(self)@.exited(),
    {
        if self.scopes.len() > 1 {
            self.scopes.pop();
            assert(self@.scopes =~= old(self)@.scopes.drop_last());
        }
    }

    /// Records a diagnostic.
    pub fn error(&mut self, err: Error)
        requires
            old(self).wf(),
        ensures
            final(self).wf(),
            final(self)@ == old(self)@.with_error(err.kind),
            final(self).records() == old(self).records().push(err),
    {
        let ghost k = err.kind;
        self.errors.push(err);
        assert(self@.errors =~= old(self)@.errors.push(k));
    }

    /// The diagnostics recorded so far.
    pub fn errors(&self) -> (r: &Vec<Error>)
        ensures
            r@ == self.records(),
            r@.map_values(|e: Error| e.kind) == self@.errors,
    {
        &self.errors
    }

    /// Whether any diagnostic has been recorded.
    pub fn has_errors(&self) -> (r: bool)
        ensures
            r == (self@.errors.len() > 0),
    {
        self.errors.len() > 0
    }
}

impl TypeCtx {
    /// Declares the type of a newly created variable in the innermost scope. A name
    /// already there is refused during the first pass and kept as it is during the
    /// second.
    pub fn declare_var(&mut self, name: String, ty: CheckedType) -> (r: Result<(), Error>)
        requires
            old(self).wf(),
        ensures
            final(self).wf(),
            final(self).records() == old(self).records(),
            final(self)@ == old(self)@.add_var(name@, ty@),
            r is Err <==> old(self)@.var_clash(name@),
            r matches Err(e) ==> e.kind == ErrKind::Context,
    {
        let ghost old_view = self@;
        let last = self.scopes.len() - 1;
        proof {
            assert(self.scopes@[last as int]@ == self@.current());
        }
        let found = find_named(&self.scopes[last].vars, &name).is_some();
        if found {
            if self.is_second_pass {
                Ok(())
            } else {
                Err(Error::new(ErrKind::Context).with_msg(
                    crate::error::message_with("variable already declared: ", name.as_str()),
                ))
            }
        } else {
            let mut scope = self.scopes.pop().unwrap();
            let ghost entry = (name@, ty@);
            scope.vars.push((name, ty));
            assert(scope@.vars =~= old_view.current().vars.push(entry));
            self.scopes.push(scope);
            assert(self@.scopes =~= old_view.add_var(entry.0, entry.1).scopes);
            Ok(())
        }
    }

    /// Declares a newly created function in the innermost scope, with the same
    /// rule for names already there as variables.
    pub fn declare_function(&mut self, name: String, args_ty: NamedTypes, return_ty: CheckedType)
        -> (r: Result<(), Error>)
        requires
            old(self).wf(),
        ensures
            final(self).wf(),
            final(self).records() == old(self).records(),
            final(self)@ == old(self)@.add_function(
                name@,
                FnView { args: named_view(args_ty@), ret: return_ty@ },
            ),
            r is Err <==> old(self)@.function_clash(name@),
            r matches Err(e) ==> e.kind == ErrKind::Context,
    {
        let ghost old_view = self@;
        let last = self.scopes.len() - 1;
        proof {
            assert(self.scopes@[last as int]@ == self@.current());
        }
        let found = find_named(&self.scopes[last].functions, &name).is_some();
        if found {
            if self.is_second_pass {
                Ok(())
            } else {
                Err(Error::new(ErrKind::Context).with_msg(
                    crate::error::message_with("function already declared: ", name.as_str()),
                ))
            }
        } else {
            let mut scope = self.scopes.pop().unwrap();
            let f = FunctionType { args_ty, return_ty };
            let ghost entry = (name@, f@);
            scope.functions.push((name, f));
            assert(scope@.functions =~= old_view.current().functions.push(entry));
            self.scopes.push(scope);
            assert(self@.scopes =~= old_view.add_function(entry.0, entry.1).scopes);
            Ok(())
        }
    }

    /// Declares a newly created custom type in the innermost scope, with the same
    /// rule for names already there as variables.
    pub fn declare_custom_type(&mut self, name: String, self_ty: CheckedType, fields_ty: NamedTypes)
        -> (r: Result<(), Error>)
        requires
            old(self).wf(),
        ensures
            final(self).wf(),
            final(self).records() == old(self).records(),
            final(self)@ == old(self)@.add_type(
                name@,
                TyDeclView { self_ty: self_ty@, fields: named_view(fields_ty@) },
            ),
            r is Err <==> old(self)@.type_clash(name@),
            r matches Err(e) ==> e.kind == ErrKind::Context,
    {
        let ghost old_view = self@;
        let last = self.scopes.len() - 1;
        proof {
            assert(self.scopes@[last as int]@ == self@.current());
        }
        let found = find_named(&self.scopes[last].types, &name).is_some();
        if found {
            if self.is_second_pass {
                Ok(())
            } else {
                Err(Error::new(ErrKind::Context).with_msg(
                    crate::error::message_with("type already declared: ", name.as_str()),
                ))
            }
        } else {
            let mut scope = self.scopes.pop().unwrap();
            let t = CustomTypeType { self_ty, fields_ty };
            let ghost entry = (name@, t@);
            scope.types.push((name, t));
            assert(scope@.types =~= old_view.current().types.push(entry));
            self.scopes.push(scope);
            assert(self@.scopes =~= old_view.add_type(entry.0, entry.1).scopes);
            Ok(())
        }
    }

    /// The declared type of variable `name`, innermost scope first.
    pub fn get_var(&self, name: &str) -> (r: Option<&CheckedType>)
        ensures
            match r {
                Some(t) => lookup_var(self@.scopes, name@) == Some(t@),
                None => lookup_var(self@.scopes, name@) is None,
            },
    {
        let key = String::from_str(name);
        let mut i: usize = self.scopes.len();
        assert(self@.scopes.subrange(0, i as int) =~= self@.scopes);
        while i > 0
            invariant
                i <= self.scopes@.len(),
                key@ == name@,
                lookup_var(self@.scopes, name@) == lookup_var(self@.scopes.subrange(0, i as int), name@),
            decreases i,
        {
            let ghost pre = self@.scopes.subrange(0, i as int);
            assert(pre.drop_last() =~= self@.scopes.subrange(0, i - 1));
            assert(pre.last() == self.scopes@[i - 1]@);
            match find_named(&self.scopes[i - 1].vars, &key) {
                Some(t) => {
                    return Some(t);
                },
                None => {},
            }
            i = i - 1;
        }
        None
    }

    /// The declared arguments and return type of function `name`, innermost scope
    /// first.
    pub fn get_function(&self, name: &str) -> (r: Option<(&NamedTypes, &CheckedType)>)
        ensures
            match r {
                Some(f) => lookup_function(self@.scopes, name@) == Some(
                    FnView { args: named_view(f.0@), ret: f.1@ },
                ),
                None => lookup_function(self@.scopes, name@) is None,
            },
    {
        let key = String::from_str(name);
        let mut i: usize = self.scopes.len();
        assert(self@.scopes.subrange(0, i as int) =~= self@.scopes);
        while i > 0
            invariant
                i <= self.scopes@.len(),
                key@ == name@,
                lookup_function(self@.scopes, name@) == lookup_function(
                    self@.scopes.subrange(0, i as int),
                    name@,
                ),
            decreases i,
        {
            let ghost pre = self@.scopes.subrange(0, i as int);
            assert(pre.drop_last() =~= self@.scopes.subrange(0, i - 1));
            assert(pre.last() == self.scopes@[i - 1]@);
            match find_named(&self.scopes[i - 1].functions, &key) {
                Some(f) => {
                    return Some((&f.args_ty, &f.return_ty));
                },
                None => {},
            }
            i = i - 1;
        }
        None
    }

    /// The declared type and fields of custom type `name`, innermost scope first.
    pub fn get_custom_type(&self, name: &str) -> (r: Option<(&CheckedType, &NamedTypes)>)
        ensures
            match r {
                Some(t) => lookup_type(self@.scopes, name@) == Some(
                    TyDeclView { self_ty: t.0@, fields: named_view(t.1@) },
                ),
                None => lookup_type(self@.scopes, name@) is None,
            },
    {
        let key = String::from_str(name);
        let mut i: usize = self.scopes.len();
        assert(self@.scopes.subrange(0, i as int) =~= self@.scopes);
        while i > 0
            invariant
                i <= self.scopes@.len(),
                key@ == name@,
                lookup_type(self@.scopes, name@) == lookup_type(self@.scopes.subrange(0, i as int), name@),
            decreases i,
        {
            let ghost pre = self@.scopes.subrange(0, i as int);
            assert(pre.drop_last() =~= self@.scopes.subrange(0, i - 1));
            assert(pre.last() == self.scopes@[i - 1]@);
            match find_named(&self.scopes[i - 1].types, &key) {
                Some(t) => {
                    return Some((&t.self_ty, &t.fields_ty));
                },
                None => {},
            }
            i = i - 1;
        }
        None
    }
}

impl Default for TypeCtx {
    fn default() -> (r: TypeCtx)
        ensures
            r.wf(),
            r@.scopes.len() == 1,
            r@.errors.len() == 0,
            !r@.second_pass,
            r@.current().types.len() == 5,
    {
        TypeCtx::new()
    }
}

impl TypeCtx {
    /// Whether variable `name` is declared in the innermost scope.
    pub fn is_local_var(&self, name: &str) -> (r: bool)
        requires
            self.wf(),
        ensures
            r == (lookup(self@.current().vars, name@) is Some),
    {
        let key = String::from_str(name);
        let last = self.scopes.len() - 1;
        proof {
            assert(self.scopes@[last as int]@ == self@.current());
        }
        find_named(&self.scopes[last].vars, &key).is_some()
    }

    /// Gives variable `name` a new type in the innermost scope: the new entry
    /// hides the earlier one.
    pub fn refine_var(&mut self, name: String, ty: CheckedType)
        requires
            old(self).wf(),
        ensures
            final(self).wf(),
            final(self).records() == old(self).records(),
            final(self)@ == old(self)@.pushed_var(name@, ty@),
    {
        let ghost old_view = self@;
        let mut scope = self.scopes.pop().unwrap();
        let ghost entry = (name@, ty@);
        scope.vars.push((name, ty));
        assert(scope@.vars =~= old_view.current().vars.push(entry));
        self.scopes.push(scope);
        assert(self@.scopes =~= old_view.pushed_var(entry.0, entry.1).scopes);
    }
}

} // verus!
