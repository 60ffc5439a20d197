use vstd::prelude::*;

use std::rc::Rc;

use crate::error::ReefError;
use crate::stmt::StmtKind;
use crate::token::Token;

verus! {

/// A user-defined function's declaration: its name, parameter names, and
/// body. Declarations are shared (the syntax tree and every closure value
/// created from it hold the same declaration), so they live behind `Rc`.
#[derive(Debug)]
pub struct FunctionDecl {
    pub name: Token,
    pub parameters: Vec<Token>,
    pub body: Vec<StmtKind>,
}

/// Which host-provided function a native callable dispatches to. The set is
/// closed: each member is implemented, and verified, inside this crate.
#[derive(Debug, Clone, Copy, PartialEq, Eq, Structural)]
pub enum NativeId {
    /// Absolute value of a number (wrapping at the numeric minimum).
    Abs,
    /// The larger of two numbers.
    Max,
}

/// A native (host-provided) function: a fixed arity and a dispatch tag. It
/// captures no environment. Registration demands that the carried arity be
/// the tag's real arity ([`spec_native_arity`]).
#[derive(Debug, Clone, Copy)]
pub struct NativeFunction {
    pub arity: usize,
    pub id: NativeId,
}

/// A user function value: the declaration it was made from, plus the index
/// of the environment scope that was current at its declaration site. That
/// captured scope, not the caller's, becomes the parent of each call's
/// scope; this is what makes closures lexical.
#[derive(Debug)]
pub struct ReefFunction {
    pub declaration: Rc<FunctionDecl>,
    pub closure: usize,
}

/// A callable value: either variant exposes an arity and can be invoked by
/// the interpreter.
#[derive(Debug)]
pub enum Callable {
    Native(NativeFunction),
    Function(ReefFunction),
}

/// The mathematical model of a callable.
pub enum CallableV {
    Native { arity: usize, id: NativeId },
    Function { decl: FunctionDecl, closure: int },
}

impl View for Callable {
    type V = CallableV;

    open spec fn view(&self) -> CallableV {
        match self {
            Callable::Native(n) => CallableV::Native { arity: n.arity, id: n.id },
            Callable::Function(f) => CallableV::Function {
                decl: *f.declaration,
                closure: f.closure as int,
            },
        }
    }
}

/// The number of arguments each native function really takes; a
/// registered [`NativeFunction`] must carry this arity for its tag.
pub open spec fn spec_native_arity(id: NativeId) -> int {
    match id {
        NativeId::Abs => 1,
        NativeId::Max => 2,
    }
}

/// The number of arguments a callable expects.
pub open spec fn spec_callable_arity(c: CallableV) -> int {
    match c {
        CallableV::Native { arity, .. } => arity as int,
        CallableV::Function { decl, .. } => decl.parameters@.len() as int,
    }
}

/// The one capability both kinds of callable expose uniformly: reporting
/// their arity. Invocation is performed by the interpreter, which threads
/// its own state through the call.
pub trait ReefCallable {
    /// The arity in the mathematical model.
    spec fn spec_arity(&self) -> int;

    /// The fixed count of arguments this callable expects.
    fn arity(&self) -> (n: usize)
        ensures
            n as int == self.spec_arity(),
    ;
}

impl ReefCallable for NativeFunction {
    open spec fn spec_arity(&self) -> int {
        self.arity as int
    }

    fn arity(&self) -> (n: usize) {
        self.arity
    }
}

impl ReefCallable for ReefFunction {
    open spec fn spec_arity(&self) -> int {
        self.declaration.parameters@.len() as int
    }

    fn arity(&self) -> (n: usize) {
        self.declaration.parameters.len()
    }
}

/// Relies on `alloc::rc::Rc::clone`: the returned handle refers to the same
/// allocation as the argument, so the two are equal.
#[verifier::external_body]
pub(crate) fn clone_decl(declaration: &Rc<FunctionDecl>) -> (r: Rc<FunctionDecl>)
    ensures
        r == *declaration,
{
    Rc::clone(declaration)
}

impl ReefFunction {
    /// Builds a user function value from a function-declaration statement,
    /// capturing `closure` as its defining scope. Any other statement kind
    /// is rejected.
    pub fn new(declaration: &StmtKind, closure: usize) -> (r: Result<ReefFunction, ReefError>)
        ensures
            match r {
                Ok(f) => *declaration matches StmtKind::Function { decl }
                    && f.declaration == decl && f.closure == closure,
                Err(_) => !(*declaration matches StmtKind::Function { .. }),
            },
    {
        match declaration {
            StmtKind::Function { decl } => Ok(ReefFunction {
                declaration: clone_decl(decl),
                closure,
            }),
            _ => Err(ReefError::reef_general_error("expected a function declaration")),
        }
    }
}

impl Callable {
    /// The arity of either kind of callable.
    pub fn arity(&self) -> (n: usize)
        ensures
            n as int == spec_callable_arity(self@),
    {
        match self {
            Callable::Native(nf) => nf.arity(),
            Callable::Function(f) => f.arity(),
        }
    }
}

impl Clone for Callable {
    /// A duplicated callable has the same model: same arity and dispatch
    /// tag, or same declaration and captured scope.
    fn clone(&self) -> (r: Self)
        ensures
            r@ == self@,
    {
        match self {
            Callable::Native(n) => Callable::Native(*n),
            Callable::Function(f) => Callable::Function(ReefFunction {
                declaration: clone_decl(&f.declaration),
                closure: f.closure,
            }),
        }
    }
}

} // verus!
