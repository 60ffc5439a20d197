use vstd::prelude::*;

use crate::token::{Token, TokenType};

verus! {

/// The variant a runtime value belongs to; reported in diagnostics so that a
/// type error names the kind of value it observed.
#[derive(Debug, Clone, Copy, PartialEq, Eq, Structural)]
pub enum ValueKind {
    Number,
    Str,
    Boolean,
    Nil,
    Callable,
}

/// The category of a runtime failure. Errors are structured rather than
/// pre-rendered text: the host driver decides how to print them.
#[derive(Debug)]
pub enum RuntimeErrorKind {
    /// A read or assignment of a name that no scope in the chain binds.
    UndefinedVariable { name: String },
    /// A value of the wrong variant was observed; carries the kind that was
    /// found, and either the offending operator's lexeme or — from the
    /// value accessors, which have no operator token and carry line 0 —
    /// the name of the expected variant.
    TypeMismatch { operator: String, found: ValueKind },
    /// A call's callee evaluated to something that is not callable.
    NotCallable { found: ValueKind },
    /// A call supplied the wrong number of arguments.
    ArityMismatch { expected: usize, actual: usize },
    /// Division by zero. Numbers are integers here, so there is no infinity
    /// to return; dividing by zero is a runtime error by design.
    DivisionByZero,
    /// The evaluator's step budget ran out: interpreted recursion (or a long
    /// loop) went past the configured depth limit.
    RecursionLimit,
    /// A `return` statement unwound past the top level of the program,
    /// outside any function call.
    ReturnOutsideFunction,
}

/// A runtime error: what went wrong and the source line it happened on.
#[derive(Debug)]
pub struct RuntimeError {
    pub kind: RuntimeErrorKind,
    pub line: usize,
}

/// Where in the source a parse-time diagnostic points.
#[derive(Debug)]
pub enum ErrorLocation {
    /// No particular token.
    General,
    /// At the end of the input.
    AtEnd,
    /// At the token with the carried lexeme.
    AtToken(String),
}

/// A failure of either of the two top-level kinds: a syntax/parse error
/// produced upstream, or a runtime error produced during evaluation.
#[derive(Debug)]
pub enum ReefError {
    ParseError { line: usize, location: ErrorLocation, message: String },
    RuntimeError(RuntimeError),
}

impl ReefError {
    /// A parse error at a line, pointing at no particular token.
    pub fn reef_error(line: usize, message: &str) -> (e: ReefError)
        ensures
            e matches ReefError::ParseError { line: l, location, message: m }
                && l == line && location == ErrorLocation::General && m@ == message@,
    {
        ReefError::reef_report(line, ErrorLocation::General, message)
    }

    /// A parse error with no line information.
    pub fn reef_general_error(message: &str) -> (e: ReefError)
        ensures
            e matches ReefError::ParseError { line: l, location, message: m }
                && l == 0 && location == ErrorLocation::General && m@ == message@,
    {
        ReefError::reef_report(0, ErrorLocation::General, message)
    }

    /// A parse error pointing at a token: at its lexeme, or at the end of
    /// the input when the token is the end-of-file marker.
    pub fn reef_error_at_line(token: &Token, message: &str) -> (e: ReefError)
        ensures
            e matches ReefError::ParseError { line: l, location, message: m }
                && l == token.line && m@ == message@
                && (if token.token_type == TokenType::Eof {
                    location == ErrorLocation::AtEnd
                } else {
                    location matches ErrorLocation::AtToken(lx) && lx == token.lexeme
                }),
    {
        if token.token_type == TokenType::Eof {
            ReefError::reef_report(token.line, ErrorLocation::AtEnd, message)
        } else {
            ReefError::reef_report(token.line, ErrorLocation::AtToken(token.lexeme.clone()), message)
        }
    }

    /// The common parse-error constructor the other constructors go through.
    pub fn reef_report(line: usize, location: ErrorLocation, message: &str) -> (e: ReefError)
        ensures
            e matches ReefError::ParseError { line: l, location: loc, message: m }
                && l == line && loc == location && m@ == message@,
    {
        ReefError::ParseError { line, location, message: message.to_owned() }
    }

    /// Wraps a runtime error for the driver-facing result type.
    pub fn reef_runtime_error(error: RuntimeError) -> (e: ReefError)
        ensures
            e == ReefError::RuntimeError(error),
    {
        ReefError::RuntimeError(error)
    }
}

} // verus!
