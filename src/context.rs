//! The runtime context: a stack of scopes of live variable bindings, the
//! diagnostics recorded while executing, and the directives waiting to be
//! carried out by the embedding program.

use vstd::prelude::*;
use crate::error::{ErrKind, Error};
use crate::instance::InstanceView;
use crate::nodes::{JkInstKind, Var};

verus! {

/// The model of a binding.
pub struct BindingView {
    pub name: Seq<char>,
    pub mutable: bool,
    pub instance: InstanceView,
}

/// The model of a variable as a binding.
pub open spec fn binding_of(v: Var) -> BindingView {
    BindingView { name: v.name@, mutable: v.mutable, instance: v.instance@ }
}

/// The model of a [`Context`]: scopes (innermost last), kinds of the recorded
/// diagnostics, and directives waiting to be carried out.
pub struct CtxView {
    pub scopes: Seq<Seq<BindingView>>,
    pub errors: Seq<ErrKind>,
    pub directives: Seq<JkInstKind>,
}

/// The most recent binding of `name` in a scope.
pub open spec fn find_binding(s: Seq<BindingView>, name: Seq<char>) -> Option<BindingView>
    decreases s.len(),
{
    if s.len() == 0 {
        None
    } else if s.last().name == name {
        Some(s.last())
    } else {
        find_binding(s.drop_last(), name)
    }
}

/// The binding of `name`, searched from the innermost scope outwards.
pub open spec fn lookup_binding(scopes: Seq<Seq<BindingView>>, name: Seq<char>) -> Option<BindingView>
    decreases scopes.len(),
{
    if scopes.len() == 0 {
        None
    } else {
        match find_binding(scopes.last(), name) {
            Some(b) => Some(b),
            None => lookup_binding(scopes.drop_last(), name),
        }
    }
}

impl CtxView {
    pub open spec fn with_error(self, k: ErrKind) -> CtxView {
        CtxView { errors: self.errors.push(k), ..self }
    }

    pub open spec fn with_directive(self, d: JkInstKind) -> CtxView {
        CtxView { directives: self.directives.push(d), ..self }
    }

    /// The context with `b` added to the innermost scope.
    pub open spec fn bind(self, b: BindingView) -> CtxView {
        CtxView { scopes: self.scopes.update(self.scopes.len() - 1, self.scopes.last().push(b)), ..self }
    }

    pub open spec fn entered(self) -> CtxView {
        CtxView { scopes: self.scopes.push(Seq::empty()), ..self }
    }

    /// The context after leaving a scope; the outermost scope is never left.
    pub open spec fn exited(self) -> CtxView {
        if self.scopes.len() > 1 {
            CtxView { scopes: self.scopes.drop_last(), ..self }
        } else {
            self
        }
    }
}

/// The state against which instructions execute.
#[derive(Debug)]
pub struct Context {
    scopes: Vec<Vec<Var>>,
    pub(crate) errors: Vec<Error>,
    directives: Vec<JkInstKind>,
}

impl View for Context {
    type V = CtxView;

    closed spec fn view(&self) -> CtxView {
        CtxView {
            scopes: self.scopes@.map_values(|s: Vec<Var>| s@.map_values(|v: Var| binding_of(v))),
            errors: self.errors@.map_values(|e: Error| e.kind),
            directives: self.directives@,
        }
    }
}

/// The index of the last variable named `name`.
fn find_var(v: &Vec<Var>, name: &String) -> (r: Option<usize>)
    ensures
        match r {
            Some(i) => i < v.len() && find_binding(v@.map_values(|x: Var| binding_of(x)), name@)
                == Some(binding_of(v@[i as int])),
            None => find_binding(v@.map_values(|x: Var| binding_of(x)), name@) is None,
        },
{
    let ghost s = v@.map_values(|x: Var| binding_of(x));
    let mut i: usize = v.len();
    assert(s.subrange(0, i as int) =~= s);
    while i > 0
        invariant
            i <= v.len(),
            s == v@.map_values(|x: Var| binding_of(x)),
            find_binding(s, name@) == find_binding(s.subrange(0, i as int), name@),
        decreases i,
    {
        assert(s.subrange(0, i as int).drop_last() =~= s.subrange(0, i - 1));
        if v[i - 1].name == *name {
            return Some(i - 1);
        }
        i = i - 1;
    }
    None
}

impl Context {
    /// The diagnostics recorded so far, oldest first.
    pub closed spec fn records(&self) -> Seq<Error> {
        self.errors@
    }

    /// The model's diagnostics are the kinds of the recorded ones.
    pub proof fn lemma_records(&self)
        ensures
            self@.errors == self.records().map_values(|e: Error| e.kind),
    {
    }

    /// The context always holds its outermost scope.
    pub open spec fn wf(&self) -> bool {
        self@.scopes.len() >= 1
    }

    /// A context with one empty scope.
    pub fn new() -> (r: Context)
        ensures
            r.wf(),
            r@ == (CtxView { scopes: seq![Seq::empty()], errors: Seq::empty(), directives: Seq::empty() }),
            r.records().len() == 0,
    {
        let mut scopes: Vec<Vec<Var>> = Vec::new();
        let e: Vec<Var> = Vec::new();
        assert(e@.map_values(|v: Var| binding_of(v)) =~= Seq::<BindingView>::empty());
        scopes.push(e);
        let r = Context { scopes, errors: Vec::new(), directives: Vec::new() };
        assert(r@.scopes =~= seq![Seq::<BindingView>::empty()]);
        assert(r@.errors =~= Seq::<ErrKind>::empty());
        r
    }

    /// Enters a new scope.
    pub fn scope_enter(&mut self)
        requires
            old(self).wf(),
        ensures
            final(self).wf(),
            final(self).records() == old(self).records(),
            final(self)@ == old(self)@.entered(),
    {
        let e: Vec<Var> = Vec::new();
        assert(e@.map_values(|v: Var| binding_of(v)) =~= Seq::<BindingView>::empty());
        self.scopes.push(e);
        assert(self@.scopes =~= old(self)@.entered().scopes);
    }

    /// Leaves the innermost scope, dropping its bindings; the outermost one is kept.
    pub fn scope_exit(&mut self)
        requires
            old(self).wf(),
        ensures
            final(self).wf(),
            final(self).records() == old(self).records(),
            final(self)@ == old(self)@.exited(),
    {
        if self.scopes.len() > 1 {
            self.scopes.pop();
            assert(self@.scopes =~= old(self)@.scopes.drop_last());
        }
    }

    /// Binds a variable in the innermost scope. A name already bound there is
    /// refused.
    pub fn add_variable(&mut self, var: Var) -> (r: Result<(), Error>)
        requires
            old(self).wf(),
        ensures
            final(self).wf(),
            final(self).records() == old(self).records(),
            match r {
                Ok(()) => find_binding(old(self)@.scopes.last(), var.name@) is None
                    && final(self)@ == old(self)@.bind(binding_of(var)),
                Err(e) => find_binding(old(self)@.scopes.last(), var.name@) is Some
                    && final(self)@ == old(self)@ && e.kind == ErrKind::Context,
            },
    {
        let last = self.scopes.len() - 1;
        if find_var(&self.scopes[last], &var.name).is_some() {
            return Err(Error::new(ErrKind::Context).with_msg(
                crate::error::message_with("variable already declared: ", var.name.as_str()),
            ));
        }
        self.push_binding(var);
        Ok(())
    }

    /// Adds `var` to the innermost scope, after the bindings already there.
    pub(crate) fn push_binding(&mut self, var: Var)
        requires
            old(self).wf(),
        ensures
            final(self).wf(),
            final(self).records() == old(self).records(),
            final(self)@ == old(self)@.bind(binding_of(var)),
    {
        let ghost b = binding_of(var);
        let mut scope = self.scopes.pop().unwrap();
        scope.push(var);
        self.scopes.push(scope);
        proof {
            assert(scope@.map_values(|x: Var| binding_of(x)) =~= old(self)@.scopes.last().push(b));
            assert(self@.scopes =~= old(self)@.bind(b).scopes);
        }
    }

    /// The binding of `name`, innermost scope first.
    pub fn get_variable(&self, name: &str) -> (r: Option<&Var>)
        ensures
            match r {
                Some(v) => lookup_binding(self@.scopes, name@) == Some(binding_of(*v)),
                None => lookup_binding(self@.scopes, name@) is None,
            },
    {
        let key = String::from_str(name);
        let mut i: usize = self.scopes.len();
        assert(self@.scopes.subrange(0, i as int) =~= self@.scopes);
        while i > 0
            invariant
                i <= self.scopes@.len(),
                key@ == name@,
                lookup_binding(self@.scopes, name@) == lookup_binding(
                    self@.scopes.subrange(0, i as int),
                    name@,
                ),
            decreases i,
        {
            let ghost pre = self@.scopes.subrange(0, i as int);
            assert(pre.drop_last() =~= self@.scopes.subrange(0, i - 1));
            match find_var(&self.scopes[i - 1], &key) {
                Some(k) => {
                    return Some(&self.scopes[i - 1][k]);
                },
                None => {},
            }
            i = i - 1;
        }
        None
    }

    /// The binding of `name` in the innermost scope only.
    pub(crate) fn get_local(&self, name: &String) -> (r: Option<&Var>)
        requires
            self.wf(),
        ensures
            match r {
                Some(v) => find_binding(self@.scopes.last(), name@) == Some(binding_of(*v)),
                None => find_binding(self@.scopes.last(), name@) is None,
            },
    {
        let last = self.scopes.len() - 1;
        match find_var(&self.scopes[last], name) {
            Some(k) => Some(&self.scopes[last][k]),
            None => None,
        }
    }

    /// Records a diagnostic.
    pub fn error(&mut self, err: Error)
        requires
            old(self).wf(),
        ensures
            final(self).wf(),
            final(self)@ == old(self)@.with_error(err.kind),
            final(self).records() == old(self).records().push(err),
    {
        let ghost k = err.kind;
        self.errors.push(err);
        assert(self@.errors =~= old(self)@.errors.push(k));
    }

    /// The diagnostics recorded so far.
    pub fn errors(&self) -> (r: &Vec<Error>)
        ensures
            r@ == self.records(),
            r@.map_values(|e: Error| e.kind) == self@.errors,
    {
        &self.errors
    }

    /// Whether any diagnostic has been recorded.
    pub fn has_errors(&self) -> (r: bool)
        ensures
            r == (self@.errors.len() > 0),
    {
        self.errors.len() > 0
    }

    /// Queues a directive for the embedding program.
    pub fn request(&mut self, d: JkInstKind)
        requires
            old(self).wf(),
        ensures
            final(self).wf(),
            final(self).records() == old(self).records(),
            final(self)@ == old(self)@.with_directive(d),
    {
        self.directives.push(d);
    }

    /// The directives waiting to be carried out, oldest first.
    pub fn directives(&self) -> (r: &Vec<JkInstKind>)
        ensures
            r@ == self@.directives,
    {
        &self.directives
    }

    /// Forgets the waiting directives, once carried out.
    pub fn clear_directives(&mut self)
        requires
            old(self).wf(),
        ensures
            final(self).wf(),
            final(self).records() == old(self).records(),
            final(self)@ == (CtxView { directives: Seq::empty(), ..old(self)@ }),
    {
        self.directives = Vec::new();
        assert(self@.directives =~= Seq::<JkInstKind>::empty());
    }
}

} // verus!
