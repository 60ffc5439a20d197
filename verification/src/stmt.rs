use vstd::prelude::*;

use std::rc::Rc;

use crate::expr::ExprKind;
use crate::func::FunctionDecl;
use crate::token::Token;

verus! {

/// A statement node of the syntax tree.
#[derive(Debug)]
pub enum StmtKind {
    /// An expression evaluated for effect; its value is discarded.
    Expression { expression: ExprKind },
    /// A variable declaration; with no initializer the variable is `nil`.
    Var { name: Token, initializer: Option<ExprKind> },
    /// A braced block: its statements run in a fresh child scope.
    Block { statements: Vec<StmtKind> },
    /// A conditional; the condition is converted by truthiness.
    If { condition: ExprKind, then_branch: Box<StmtKind>, else_branch: Option<Box<StmtKind>> },
    /// A loop; the body runs while the condition stays truthy.
    While { condition: ExprKind, body: Box<StmtKind> },
    /// A function declaration: captures the current scope and binds the
    /// function value under its own name in that same scope.
    Function { decl: Rc<FunctionDecl> },
    /// Unwinds to the nearest enclosing call, carrying a value (`nil` when
    /// the expression is absent).
    Return { keyword: Token, value: Option<ExprKind> },
}

} // verus!
