//! Execution and type-resolution core of a small expression-oriented language.
//!
//! The abstract syntax tree is a closed sum type ([`Instr`]). Every node can be
//! rendered back to source text, resolved to a static [`CheckedType`] against a
//! [`TypeCtx`] (in two passes, so that functions may be used before they are
//! declared), and executed against a runtime [`Context`], where a program's
//! top-level functions can be called up to a given depth of nested calls.
//! Errors are never thrown: they are recorded and a sentinel is returned.

pub mod error;
pub mod operator;
pub mod instance;
pub mod typechecker;
pub mod nodes;
pub mod resolve;
pub mod context;
pub mod execute;
pub mod print;
pub mod laws;

pub use error::{ErrKind, Error};
pub use operator::Operator;
pub use instance::{CheckedType, InstanceView, JinkChar, ObjectInstance, TypeId, TypeView, Value, ValueView};
pub use typechecker::{CustomTypeType, FunctionType, NamedTypes, TcScope, TypeCtx};
pub use nodes::{
    BinaryOp, Block, FunctionCall, FunctionDec, IfElse, InstrKind, Instr, JkInst, JkInstKind, Var,
    VarAssign,
};
pub use resolve::{check_program, resolve_all, CachedTypeCheck, TypeCheck};
pub use context::Context;
pub use execute::{int_kernel, run_program};
