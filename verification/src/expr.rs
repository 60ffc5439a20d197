use vstd::prelude::*;

use crate::error::{ReefError, RuntimeError, RuntimeErrorKind, ValueKind};
use crate::func::{Callable, CallableV};
use crate::token::{Literal, Token};

verus! {

/// A runtime value: the language's tagged union. Values are immutable once
/// constructed; assignment rebinds a name, it never mutates a value.
///
/// Numbers are signed 64-bit integers. That is a deliberate design choice of
/// this language: arithmetic wraps on overflow and division by zero is a
/// runtime error rather than an infinity.
#[derive(Debug)]
pub enum Value {
    Number(i64),
    Str(String),
    Boolean(bool),
    Nil,
    Callable(Callable),
}

/// The mathematical model of a [`Value`]: strings become character
/// sequences, callables keep their declaration and the index of the scope
/// they captured.
pub enum ValueV {
    Number(i64),
    Str(Seq<char>),
    Boolean(bool),
    Nil,
    Callable(CallableV),
}

impl View for Value {
    type V = ValueV;

    open spec fn view(&self) -> ValueV {
        match self {
            Value::Number(n) => ValueV::Number(*n),
            Value::Str(s) => ValueV::Str(s@),
            Value::Boolean(b) => ValueV::Boolean(*b),
            Value::Nil => ValueV::Nil,
            Value::Callable(c) => ValueV::Callable(c@),
        }
    }
}

/// The variant tag of a value, for diagnostics.
pub open spec fn spec_kind_of(v: ValueV) -> ValueKind {
    match v {
        ValueV::Number(_) => ValueKind::Number,
        ValueV::Str(_) => ValueKind::Str,
        ValueV::Boolean(_) => ValueKind::Boolean,
        ValueV::Nil => ValueKind::Nil,
        ValueV::Callable(_) => ValueKind::Callable,
    }
}

/// Truthiness: `nil` and `false` are falsy, every other value (including
/// zero and the empty string) is truthy.
pub open spec fn spec_truthy(v: ValueV) -> bool {
    !(v == ValueV::Nil || v == ValueV::Boolean(false))
}

/// The language's equality: values of different variants are never equal;
/// equal variants compare by underlying value. Callables compare unequal to
/// everything, themselves included, by design.
pub open spec fn spec_values_equal(a: ValueV, b: ValueV) -> bool {
    match (a, b) {
        (ValueV::Number(x), ValueV::Number(y)) => x == y,
        (ValueV::Str(x), ValueV::Str(y)) => x == y,
        (ValueV::Boolean(x), ValueV::Boolean(y)) => x == y,
        (ValueV::Nil, ValueV::Nil) => true,
        _ => false,
    }
}

impl Value {
    /// The number a value holds. Anything else fails with a runtime type
    /// mismatch naming the expected variant and the observed one.
    pub fn as_number(&self) -> (r: Result<i64, ReefError>)
        ensures
            match r {
                Ok(n) => *self matches Value::Number(m) && n == m,
                Err(e) => {
                    &&& !(*self matches Value::Number(_))
                    &&& (e matches ReefError::RuntimeError(re) && re.line == 0 && (
                    re.kind matches RuntimeErrorKind::TypeMismatch { operator, found }
                        && operator@ == "number"@ && found == spec_kind_of(self@)))
                },
            },
    {
        match self {
            Value::Number(n) => Ok(*n),
            _ => Err(ReefError::RuntimeError(RuntimeError {
                kind: RuntimeErrorKind::TypeMismatch {
                    operator: "number".to_owned(),
                    found: self.kind(),
                },
                line: 0,
            })),
        }
    }

    /// The string a value holds. Anything else fails with a runtime type
    /// mismatch naming the expected variant and the observed one.
    pub fn as_string(&self) -> (r: Result<&str, ReefError>)
        ensures
            match r {
                Ok(s) => *self matches Value::Str(t) && s@ == t@,
                Err(e) => {
                    &&& !(*self matches Value::Str(_))
                    &&& (e matches ReefError::RuntimeError(re) && re.line == 0 && (
                    re.kind matches RuntimeErrorKind::TypeMismatch { operator, found }
                        && operator@ == "string"@ && found == spec_kind_of(self@)))
                },
            },
    {
        match self {
            Value::Str(s) => Ok(s.as_str()),
            _ => Err(ReefError::RuntimeError(RuntimeError {
                kind: RuntimeErrorKind::TypeMismatch {
                    operator: "string".to_owned(),
                    found: self.kind(),
                },
                line: 0,
            })),
        }
    }

    /// The boolean a value holds. Anything else fails with a runtime type
    /// mismatch naming the expected variant and the observed one.
    pub fn as_boolean(&self) -> (r: Result<bool, ReefError>)
        ensures
            match r {
                Ok(b) => *self matches Value::Boolean(c) && b == c,
                Err(e) => {
                    &&& !(*self matches Value::Boolean(_))
                    &&& (e matches ReefError::RuntimeError(re) && re.line == 0 && (
                    re.kind matches RuntimeErrorKind::TypeMismatch { operator, found }
                        && operator@ == "boolean"@ && found == spec_kind_of(self@)))
                },
            },
    {
        match self {
            Value::Boolean(b) => Ok(*b),
            _ => Err(ReefError::RuntimeError(RuntimeError {
                kind: RuntimeErrorKind::TypeMismatch {
                    operator: "boolean".to_owned(),
                    found: self.kind(),
                },
                line: 0,
            })),
        }
    }

    /// The variant tag of this value.
    pub fn kind(&self) -> (k: ValueKind)
        ensures
            k == spec_kind_of(self@),
    {
        match self {
            Value::Number(_) => ValueKind::Number,
            Value::Str(_) => ValueKind::Str,
            Value::Boolean(_) => ValueKind::Boolean,
            Value::Nil => ValueKind::Nil,
            Value::Callable(_) => ValueKind::Callable,
        }
    }

    /// Truthiness conversion, as control flow applies it.
    pub fn is_truthy(&self) -> (b: bool)
        ensures
            b == spec_truthy(self@),
    {
        match self {
            Value::Nil => false,
            Value::Boolean(b) => *b,
            _ => true,
        }
    }

    /// The language's equality test over two values.
    pub fn equals(&self, other: &Value) -> (r: bool)
        ensures
            r == spec_values_equal(self@, other@),
    {
        match (self, other) {
            (Value::Number(x), Value::Number(y)) => *x == *y,
            (Value::Str(x), Value::Str(y)) => x.eq(y),
            (Value::Boolean(x), Value::Boolean(y)) => *x == *y,
            (Value::Nil, Value::Nil) => true,
            _ => false,
        }
    }
}

impl Clone for Value {
    /// Duplicating a value preserves its model exactly; a duplicated
    /// callable shares the same declaration and captured scope.
    fn clone(&self) -> (r: Self)
        ensures
            r@ == self@,
    {
        match self {
            Value::Number(n) => Value::Number(*n),
            Value::Str(s) => Value::Str(s.clone()),
            Value::Boolean(b) => Value::Boolean(*b),
            Value::Nil => Value::Nil,
            Value::Callable(c) => Value::Callable(c.clone()),
        }
    }
}

/// An expression node of the syntax tree. Each node owns its sub-nodes; the
/// tree is acyclic and owned top-down.
#[derive(Debug)]
pub enum ExprKind {
    Assign { name: Token, value: Box<ExprKind> },
    Binary { left: Box<ExprKind>, operator: Token, right: Box<ExprKind> },
    Call { callee: Box<ExprKind>, token: Token, arguments: Vec<ExprKind> },
    Grouping { expression: Box<ExprKind> },
    Literal { value: Literal },
    Logical { left: Box<ExprKind>, operator: Token, right: Box<ExprKind> },
    Unary { operator: Token, right: Box<ExprKind> },
    Variable { name: Token },
}

/// Entry point for evaluating a single expression with no surrounding
/// program; see [`Expr::evaluate`].
#[derive(Debug)]
pub struct Expr {}

} // verus!
