//! Diagnostics: every fallible operation records an [`Error`] instead of aborting.

use vstd::prelude::*;

verus! {

/// The three families of diagnostics.
#[derive(Debug, Clone, Copy, PartialEq, Eq, Structural)]
pub enum ErrKind {
    /// A construct could not be built (an unknown directive name).
    Parsing,
    /// A runtime lookup or use failed.
    Context,
    /// A static type mismatch or an undeclared name.
    TypeChecker,
}

/// A recorded diagnostic: its kind and a human-readable message.
#[derive(Debug, Clone)]
pub struct Error {
    pub kind: ErrKind,
    pub msg: String,
}

impl Error {
    /// An error of the given kind, with an empty message.
    pub fn new(kind: ErrKind) -> (r: Error)
        ensures
            r.kind == kind,
            r.msg@ == Seq::<char>::empty(),
    {
        Error { kind, msg: String::new() }
    }

    /// The same error, carrying the given message.
    pub fn with_msg(self, msg: String) -> (r: Error)
        ensures
            r.kind == self.kind,
            r.msg@ == msg@,
    {
        Error { kind: self.kind, msg }
    }

    /// The error's kind.
    pub fn kind(&self) -> (r: ErrKind)
        ensures
            r == self.kind,
    {
        self.kind
    }

    /// The error's message.
    pub fn message(&self) -> (r: &str)
        ensures
            r@ == self.msg@,
    {
        self.msg.as_str()
    }
}

/// Builds a message out of a fixed text followed by a name.
pub(crate) fn message_with(text: &str, name: &str) -> (r: String)
    ensures
        r@ == text@ + name@,
{
    let mut s = String::from_str(text);
    s.append(name);
    s
}

} // verus!
