use vstd::prelude::*;
use vstd::string::StringExecFns;

use crate::environment::{
    env_assign, env_define, env_lookup, env_push, env_wf, value_wf, Environment, ScopeV,
};
use crate::error::{ReefError, RuntimeError, RuntimeErrorKind};
use crate::expr::{
    spec_kind_of, spec_truthy, spec_values_equal, Expr, ExprKind, Value, ValueV,
};
use crate::func::{clone_decl, spec_callable_arity, Callable, CallableV, NativeFunction, NativeId};
use crate::stmt::StmtKind;
use crate::token::{Literal, Token, TokenType};

verus! {

/// The default step budget handed to evaluation entry points that do not
/// take one explicitly. Every recursive step of the evaluator spends one
/// unit, so this bounds recursion depth (and loop length) rather than total
/// work.
pub const DEFAULT_FUEL: u64 = 1000000;

/// What executing a statement did with control: fell through normally, or
/// is unwinding to the nearest enclosing call with a value.
#[derive(Debug)]
pub enum Flow {
    Normal,
    Return(Value),
}

/// The mathematical model of [`Flow`].
pub enum FlowV {
    Normal,
    Return(ValueV),
}

impl View for Flow {
    type V = FlowV;

    open spec fn view(&self) -> FlowV {
        match self {
            Flow::Normal => FlowV::Normal,
            Flow::Return(v) => FlowV::Return(v@),
        }
    }
}

/// The value a literal node denotes.
pub open spec fn lit_value(l: Literal) -> ValueV {
    match l {
        Literal::Str(s) => ValueV::Str(s@),
        Literal::Number(n) => ValueV::Number(n),
        Literal::Boolean(b) => ValueV::Boolean(b),
        Literal::Nil => ValueV::Nil,
    }
}

/// The type-mismatch error an operator token raises against a value.
pub open spec fn type_err(op: Token, v: ValueV) -> RuntimeError {
    RuntimeError {
        kind: RuntimeErrorKind::TypeMismatch { operator: op.lexeme, found: spec_kind_of(v) },
        line: op.line,
    }
}

/// The undefined-variable error a name token raises.
pub open spec fn undef_err(name: Token) -> RuntimeError {
    RuntimeError {
        kind: RuntimeErrorKind::UndefinedVariable { name: name.lexeme },
        line: name.line,
    }
}

/// The error raised when the step budget runs out. It has no single source
/// position, so it carries line 0.
pub open spec fn limit_err() -> RuntimeError {
    RuntimeError { kind: RuntimeErrorKind::RecursionLimit, line: 0 }
}

/// Truncated division on the language's 64-bit numbers; the one quotient
/// that does not fit (the minimum divided by minus one) wraps.
pub open spec fn spec_div(x: i64, y: i64) -> i64 {
    match x.checked_div(y) {
        Some(q) => q,
        None => i64::MIN,
    }
}

/// What a binary operator yields on two operand values: arithmetic and
/// comparison require numbers, `+` also concatenates two strings, and the
/// equality operators accept everything. Arithmetic wraps; division by zero
/// is an error.
pub open spec fn spec_binary(op: Token, a: ValueV, b: ValueV) -> Result<ValueV, RuntimeError> {
    match op.token_type {
        TokenType::Plus => match (a, b) {
            (ValueV::Number(x), ValueV::Number(y)) => Ok(ValueV::Number(x.wrapping_add(y))),
            (ValueV::Str(x), ValueV::Str(y)) => Ok(ValueV::Str(x + y)),
            (ValueV::Number(_), _) => Err(type_err(op, b)),
            (ValueV::Str(_), _) => Err(type_err(op, b)),
            _ => Err(type_err(op, a)),
        },
        TokenType::Minus => match (a, b) {
            (ValueV::Number(x), ValueV::Number(y)) => Ok(ValueV::Number(x.wrapping_sub(y))),
            (ValueV::Number(_), _) => Err(type_err(op, b)),
            _ => Err(type_err(op, a)),
        },
        TokenType::Star => match (a, b) {
            (ValueV::Number(x), ValueV::Number(y)) => Ok(ValueV::Number(x.wrapping_mul(y))),
            (ValueV::Number(_), _) => Err(type_err(op, b)),
            _ => Err(type_err(op, a)),
        },
        TokenType::Slash => match (a, b) {
            (ValueV::Number(x), ValueV::Number(y)) => if y == 0 {
                Err(RuntimeError { kind: RuntimeErrorKind::DivisionByZero, line: op.line })
            } else {
                Ok(ValueV::Number(spec_div(x, y)))
            },
            (ValueV::Number(_), _) => Err(type_err(op, b)),
            _ => Err(type_err(op, a)),
        },
        TokenType::Greater => match (a, b) {
            (ValueV::Number(x), ValueV::Number(y)) => Ok(ValueV::Boolean(x > y)),
            (ValueV::Number(_), _) => Err(type_err(op, b)),
            _ => Err(type_err(op, a)),
        },
        TokenType::GreaterEqual => match (a, b) {
            (ValueV::Number(x), ValueV::Number(y)) => Ok(ValueV::Boolean(x >= y)),
            (ValueV::Number(_), _) => Err(type_err(op, b)),
            _ => Err(type_err(op, a)),
        },
        TokenType::Less => match (a, b) {
            (ValueV::Number(x), ValueV::Number(y)) => Ok(ValueV::Boolean(x < y)),
            (ValueV::Number(_), _) => Err(type_err(op, b)),
            _ => Err(type_err(op, a)),
        },
        TokenType::LessEqual => match (a, b) {
            (ValueV::Number(x), ValueV::Number(y)) => Ok(ValueV::Boolean(x <= y)),
            (ValueV::Number(_), _) => Err(type_err(op, b)),
            _ => Err(type_err(op, a)),
        },
        TokenType::EqualEqual => Ok(ValueV::Boolean(spec_values_equal(a, b))),
        TokenType::BangEqual => Ok(ValueV::Boolean(!spec_values_equal(a, b))),
        _ => Err(type_err(op, a)),
    }
}

/// What a unary operator yields: `-` negates a number (wrapping at the
/// minimum), `!` negates truthiness.
pub open spec fn spec_unary(op: Token, v: ValueV) -> Result<ValueV, RuntimeError> {
    match op.token_type {
        TokenType::Minus => match v {
            ValueV::Number(n) => Ok(ValueV::Number((0i64).wrapping_sub(n))),
            _ => Err(type_err(op, v)),
        },
        TokenType::Bang => Ok(ValueV::Boolean(!spec_truthy(v))),
        _ => Err(type_err(op, v)),
    }
}

/// What a native function returns on an argument list. Natives are pure:
/// they read their arguments and nothing else. Type errors name the call's
/// token as the operator.
pub open spec fn spec_native(id: NativeId, args: Seq<ValueV>, token: Token) -> Result<
    ValueV,
    RuntimeError,
> {
    match id {
        NativeId::Abs => if args.len() != crate::func::spec_native_arity(NativeId::Abs) {
            Err(RuntimeError {
                kind: RuntimeErrorKind::ArityMismatch { expected: 1, actual: args.len() as usize },
                line: token.line,
            })
        } else {
            match args[0] {
                ValueV::Number(n) => Ok(ValueV::Number(
                    if n < 0 { (0i64).wrapping_sub(n) } else { n },
                )),
                v => Err(type_err(token, v)),
            }
        },
        NativeId::Max => if args.len() != crate::func::spec_native_arity(NativeId::Max) {
            Err(RuntimeError {
                kind: RuntimeErrorKind::ArityMismatch { expected: 2, actual: args.len() as usize },
                line: token.line,
            })
        } else {
            match (args[0], args[1]) {
                (ValueV::Number(x), ValueV::Number(y)) => Ok(ValueV::Number(
                    if x >= y { x } else { y },
                )),
                (ValueV::Number(_), v) => Err(type_err(token, v)),
                (v, _) => Err(type_err(token, v)),
            }
        },
    }
}

/// The scope arena after binding each parameter name to the matching
/// argument, in order, in scope `scope`.
pub open spec fn bind_params(
    env: Seq<ScopeV>,
    scope: int,
    params: Seq<Token>,
    args: Seq<ValueV>,
) -> Seq<ScopeV>
    decreases params.len(),
{
    if params.len() == 0 {
        env
    } else {
        bind_params(
            env_define(env, scope, params[0].lexeme@, args[0]),
            scope,
            params.drop_first(),
            args.drop_first(),
        )
    }
}

/// The ghost interpreter, expression side: what evaluating `e` in scope
/// `scope` of arena `env` yields, and the arena it leaves behind. Every
/// recursive step spends one unit of `fuel`; at zero the evaluation fails
/// with the recursion-limit error. The executable evaluator is proved to
/// agree with this function exactly.
pub open spec fn spec_eval(env: Seq<ScopeV>, scope: int, e: ExprKind, fuel: nat) -> (Result<
    ValueV,
    RuntimeError,
>, Seq<ScopeV>)
    decreases fuel, 0int,
{
    if fuel == 0 {
        (Err(limit_err()), env)
    } else {
        match e {
            ExprKind::Literal { value } => (Ok(lit_value(value)), env),
            ExprKind::Grouping { expression } => spec_eval(
                env,
                scope,
                *expression,
                (fuel - 1) as nat,
            ),
            ExprKind::Unary { operator, right } => {
                let (r, env1) = spec_eval(env, scope, *right, (fuel - 1) as nat);
                match r {
                    Ok(v) => (spec_unary(operator, v), env1),
                    Err(e1) => (Err(e1), env1),
                }
            },
            ExprKind::Binary { left, operator, right } => {
                let (rl, env1) = spec_eval(env, scope, *left, (fuel - 1) as nat);
                match rl {
                    Ok(a) => {
                        let (rr, env2) = spec_eval(env1, scope, *right, (fuel - 1) as nat);
                        match rr {
                            Ok(b) => (spec_binary(operator, a, b), env2),
                            Err(e1) => (Err(e1), env2),
                        }
                    },
                    Err(e1) => (Err(e1), env1),
                }
            },
            ExprKind::Logical { left, operator, right } => {
                let (rl, env1) = spec_eval(env, scope, *left, (fuel - 1) as nat);
                match rl {
                    Ok(v) => if operator.token_type == TokenType::Or {
                        if spec_truthy(v) {
                            (Ok(v), env1)
                        } else {
                            spec_eval(env1, scope, *right, (fuel - 1) as nat)
                        }
                    } else {
                        if !spec_truthy(v) {
                            (Ok(v), env1)
                        } else {
                            spec_eval(env1, scope, *right, (fuel - 1) as nat)
                        }
                    },
                    Err(e1) => (Err(e1), env1),
                }
            },
            ExprKind::Variable { name } => match env_lookup(env, scope, name.lexeme@) {
                Some(v) => (Ok(v), env),
                None => (Err(undef_err(name)), env),
            },
            ExprKind::Assign { name, value } => {
                let (rv, env1) = spec_eval(env, scope, *value, (fuel - 1) as nat);
                match rv {
                    Ok(v) => match env_assign(env1, scope, name.lexeme@, v) {
                        Some(env2) => (Ok(v), env2),
                        None => (Err(undef_err(name)), env1),
                    },
                    Err(e1) => (Err(e1), env1),
                }
            },
            ExprKind::Call { callee, token, arguments } => {
                let (rc, env1) = spec_eval(env, scope, *callee, (fuel - 1) as nat);
                match rc {
                    Ok(cv) => match cv {
                        ValueV::Callable(c) => {
                            let (ra, env2) = spec_eval_args(
                                env1,
                                scope,
                                arguments@,
                                0,
                                (fuel - 1) as nat,
                            );
                            match ra {
                                Ok(vals) => if vals.len() as int != spec_callable_arity(c) {
                                    (
                                        Err(RuntimeError {
                                            kind: RuntimeErrorKind::ArityMismatch {
                                                expected: spec_callable_arity(c) as usize,
                                                actual: vals.len() as usize,
                                            },
                                            line: token.line,
                                        }),
                                        env2,
                                    )
                                } else {
                                    spec_invoke(env2, c, vals, token, (fuel - 1) as nat)
                                },
                                Err(e1) => (Err(e1), env2),
                            }
                        },
                        _ => (
                            Err(RuntimeError {
                                kind: RuntimeErrorKind::NotCallable { found: spec_kind_of(cv) },
                                line: token.line,
                            }),
                            env1,
                        ),
                    },
                    Err(e1) => (Err(e1), env1),
                }
            },
        }
    }
}

/// The ghost interpreter over an argument list: evaluates `args[i..]` left
/// to right, threading the arena, and collects the values.
pub open spec fn spec_eval_args(
    env: Seq<ScopeV>,
    scope: int,
    args: Seq<ExprKind>,
    i: int,
    fuel: nat,
) -> (Result<Seq<ValueV>, RuntimeError>, Seq<ScopeV>)
    decreases fuel, args.len() - i,
{
    if fuel == 0 {
        (Err(limit_err()), env)
    } else if i < 0 || i >= args.len() {
        (Ok(Seq::empty()), env)
    } else {
        let (r, env1) = spec_eval(env, scope, args[i], (fuel - 1) as nat);
        match r {
            Ok(v) => {
                let (rest, env2) = spec_eval_args(env1, scope, args, i + 1, fuel);
                match rest {
                    Ok(vs) => (Ok(seq![v] + vs), env2),
                    Err(e1) => (Err(e1), env2),
                }
            },
            Err(e1) => (Err(e1), env1),
        }
    }
}

/// The ghost interpreter, invocation: a native dispatches to its pure
/// definition; a user function gets a fresh scope whose parent is the
/// scope it captured at declaration (never the caller's), its parameters
/// bound there, and its body executed in it. Falling off the end yields
/// `nil`. The caller has already checked the arity.
pub open spec fn spec_invoke(
    env: Seq<ScopeV>,
    c: CallableV,
    args: Seq<ValueV>,
    token: Token,
    fuel: nat,
) -> (Result<ValueV, RuntimeError>, Seq<ScopeV>)
    decreases fuel, 0int,
{
    if fuel == 0 {
        (Err(limit_err()), env)
    } else {
        match c {
            CallableV::Native { id, .. } => (spec_native(id, args, token), env),
            CallableV::Function { decl, closure } => {
                let ns = env.len() as int;
                let env1 = env_push(env, closure);
                let env2 = bind_params(env1, ns, decl.parameters@, args);
                let (fr, env3) = spec_exec_stmts(env2, ns, decl.body@, 0, (fuel - 1) as nat);
                match fr {
                    Ok(FlowV::Normal) => (Ok(ValueV::Nil), env3),
                    Ok(FlowV::Return(v)) => (Ok(v), env3),
                    Err(e1) => (Err(e1), env3),
                }
            },
        }
    }
}

/// The ghost interpreter, statement side: what executing `s` does to the
/// arena and with control.
pub open spec fn spec_exec_stmt(env: Seq<ScopeV>, scope: int, s: StmtKind, fuel: nat) -> (Result<
    FlowV,
    RuntimeError,
>, Seq<ScopeV>)
    decreases fuel, 0int,
{
    if fuel == 0 {
        (Err(limit_err()), env)
    } else {
        match s {
            StmtKind::Expression { expression } => {
                let (r, env1) = spec_eval(env, scope, expression, (fuel - 1) as nat);
                match r {
                    Ok(_) => (Ok(FlowV::Normal), env1),
                    Err(e1) => (Err(e1), env1),
                }
            },
            StmtKind::Var { name, initializer } => match initializer {
                Some(init) => {
                    let (r, env1) = spec_eval(env, scope, init, (fuel - 1) as nat);
                    match r {
                        Ok(v) => (
                            Ok(FlowV::Normal),
                            env_define(env1, scope, name.lexeme@, v),
                        ),
                        Err(e1) => (Err(e1), env1),
                    }
                },
                None => (Ok(FlowV::Normal), env_define(env, scope, name.lexeme@, ValueV::Nil)),
            },
            StmtKind::Block { statements } => {
                let ns = env.len() as int;
                let env1 = env_push(env, scope);
                spec_exec_stmts(env1, ns, statements@, 0, (fuel - 1) as nat)
            },
            StmtKind::If { condition, then_branch, else_branch } => {
                let (r, env1) = spec_eval(env, scope, condition, (fuel - 1) as nat);
                match r {
                    Ok(v) => if spec_truthy(v) {
                        spec_exec_stmt(env1, scope, *then_branch, (fuel - 1) as nat)
                    } else {
                        match else_branch {
                            Some(eb) => spec_exec_stmt(env1, scope, *eb, (fuel - 1) as nat),
                            None => (Ok(FlowV::Normal), env1),
                        }
                    },
                    Err(e1) => (Err(e1), env1),
                }
            },
            StmtKind::While { condition, body } => {
                let (r, env1) = spec_eval(env, scope, condition, (fuel - 1) as nat);
                match r {
                    Ok(v) => if !spec_truthy(v) {
                        (Ok(FlowV::Normal), env1)
                    } else {
                        let (fr, env2) = spec_exec_stmt(env1, scope, *body, (fuel - 1) as nat);
                        match fr {
                            Ok(FlowV::Normal) => spec_exec_stmt(env2, scope, s, (fuel - 1) as nat),
                            Ok(FlowV::Return(rv)) => (Ok(FlowV::Return(rv)), env2),
                            Err(e1) => (Err(e1), env2),
                        }
                    },
                    Err(e1) => (Err(e1), env1),
                }
            },
            StmtKind::Function { decl } => {
                let f = ValueV::Callable(CallableV::Function { decl: *decl, closure: scope });
                (Ok(FlowV::Normal), env_define(env, scope, (*decl).name.lexeme@, f))
            },
            StmtKind::Return { keyword: _, value } => match value {
                Some(e0) => {
                    let (r, env1) = spec_eval(env, scope, e0, (fuel - 1) as nat);
                    match r {
                        Ok(v) => (Ok(FlowV::Return(v)), env1),
                        Err(e1) => (Err(e1), env1),
                    }
                },
                None => (Ok(FlowV::Return(ValueV::Nil)), env),
            },
        }
    }
}

/// The ghost interpreter over a statement list: executes `stmts[i..]` in
/// order until one unwinds or fails.
pub open spec fn spec_exec_stmts(
    env: Seq<ScopeV>,
    scope: int,
    stmts: Seq<StmtKind>,
    i: int,
    fuel: nat,
) -> (Result<FlowV, RuntimeError>, Seq<ScopeV>)
    decreases fuel, stmts.len() - i,
{
    if fuel == 0 {
        (Err(limit_err()), env)
    } else if i < 0 || i >= stmts.len() {
        (Ok(FlowV::Normal), env)
    } else {
        let (fr, env1) = spec_exec_stmt(env, scope, stmts[i], (fuel - 1) as nat);
        match fr {
            Ok(FlowV::Normal) => spec_exec_stmts(env1, scope, stmts, i + 1, fuel),
            Ok(FlowV::Return(v)) => (Ok(FlowV::Return(v)), env1),
            Err(e1) => (Err(e1), env1),
        }
    }
}

/// The tree-walking evaluator: owns the scope arena and walks expression
/// and statement nodes against it.
pub struct Interpreter {
    env: Environment,
}

impl View for Interpreter {
    type V = Seq<ScopeV>;

    closed spec fn view(&self) -> Seq<ScopeV> {
        self.env@
    }
}

/// The model of a list of runtime values.
pub open spec fn vals_view(s: Seq<Value>) -> Seq<ValueV> {
    s.map_values(|v: Value| v@)
}

/// The arena a fresh interpreter starts from: one empty global scope.
pub open spec fn initial_env() -> Seq<ScopeV> {
    seq![ScopeV { bindings: Seq::empty(), parent: None }]
}

/// The ghost interpreter, whole-program side: executes a statement list in
/// the global scope; a `return` reaching the top level is an error.
pub open spec fn spec_execute(env: Seq<ScopeV>, stmts: Seq<StmtKind>, fuel: nat) -> (Result<
    (),
    RuntimeError,
>, Seq<ScopeV>) {
    let (fr, env1) = spec_exec_stmts(env, 0, stmts, 0, fuel);
    match fr {
        Ok(FlowV::Normal) => (Ok(()), env1),
        Ok(FlowV::Return(_)) => (
            Err(RuntimeError { kind: RuntimeErrorKind::ReturnOutsideFunction, line: 0 }),
            env1,
        ),
        Err(e1) => (Err(e1), env1),
    }
}

/// The type-mismatch error `op` raises against `v`, as a runtime value.
fn type_mismatch(op: &Token, v: &Value) -> (r: RuntimeError)
    ensures
        r == type_err(*op, v@),
{
    RuntimeError {
        kind: RuntimeErrorKind::TypeMismatch { operator: op.lexeme.clone(), found: v.kind() },
        line: op.line,
    }
}

/// Applies a unary operator to a value, exactly as [`spec_unary`] says.
fn unary_result(op: &Token, v: &Value) -> (r: Result<Value, RuntimeError>)
    ensures
        match r {
            Ok(out) => spec_unary(*op, v@) == Ok::<ValueV, RuntimeError>(out@)
                && (forall|n: int| #[trigger] value_wf(out@, n)),
            Err(e1) => spec_unary(*op, v@) == Err::<ValueV, RuntimeError>(e1),
        },
{
    match op.token_type {
        TokenType::Minus => match v {
            Value::Number(n) => Ok(Value::Number((0i64).wrapping_sub(*n))),
            _ => Err(type_mismatch(op, v)),
        },
        TokenType::Bang => Ok(Value::Boolean(!v.is_truthy())),
        _ => Err(type_mismatch(op, v)),
    }
}

/// Applies a binary operator to two values, exactly as [`spec_binary`]
/// says.
fn binary_result(op: &Token, a: Value, b: Value) -> (r: Result<Value, RuntimeError>)
    ensures
        match r {
            Ok(out) => spec_binary(*op, a@, b@) == Ok::<ValueV, RuntimeError>(out@)
                && (forall|n: int| #[trigger] value_wf(out@, n)),
            Err(e1) => spec_binary(*op, a@, b@) == Err::<ValueV, RuntimeError>(e1),
        },
{
    match op.token_type {
        TokenType::Plus => match (a, b) {
            (Value::Number(x), Value::Number(y)) => Ok(Value::Number(x.wrapping_add(y))),
            (Value::Str(x), Value::Str(y)) => Ok(Value::Str(x.concat(y.as_str()))),
            (Value::Number(_), bb) => Err(type_mismatch(op, &bb)),
            (Value::Str(_), bb) => Err(type_mismatch(op, &bb)),
            (aa, _) => Err(type_mismatch(op, &aa)),
        },
        TokenType::Minus => match (a, b) {
            (Value::Number(x), Value::Number(y)) => Ok(Value::Number(x.wrapping_sub(y))),
            (Value::Number(_), bb) => Err(type_mismatch(op, &bb)),
            (aa, _) => Err(type_mismatch(op, &aa)),
        },
        TokenType::Star => match (a, b) {
            (Value::Number(x), Value::Number(y)) => Ok(Value::Number(x.wrapping_mul(y))),
            (Value::Number(_), bb) => Err(type_mismatch(op, &bb)),
            (aa, _) => Err(type_mismatch(op, &aa)),
        },
        TokenType::Slash => match (a, b) {
            (Value::Number(x), Value::Number(y)) => {
                if y == 0 {
                    Err(RuntimeError { kind: RuntimeErrorKind::DivisionByZero, line: op.line })
                } else {
                    let q = match x.checked_div(y) {
                        Some(q0) => q0,
                        None => i64::MIN,
                    };
                    Ok(Value::Number(q))
                }
            },
            (Value::Number(_), bb) => Err(type_mismatch(op, &bb)),
            (aa, _) => Err(type_mismatch(op, &aa)),
        },
        TokenType::Greater => match (a, b) {
            (Value::Number(x), Value::Number(y)) => Ok(Value::Boolean(x > y)),
            (Value::Number(_), bb) => Err(type_mismatch(op, &bb)),
            (aa, _) => Err(type_mismatch(op, &aa)),
        },
        TokenType::GreaterEqual => match (a, b) {
            (Value::Number(x), Value::Number(y)) => Ok(Value::Boolean(x >= y)),
            (Value::Number(_), bb) => Err(type_mismatch(op, &bb)),
            (aa, _) => Err(type_mismatch(op, &aa)),
        },
        TokenType::Less => match (a, b) {
            (Value::Number(x), Value::Number(y)) => Ok(Value::Boolean(x < y)),
            (Value::Number(_), bb) => Err(type_mismatch(op, &bb)),
            (aa, _) => Err(type_mismatch(op, &aa)),
        },
        TokenType::LessEqual => match (a, b) {
            (Value::Number(x), Value::Number(y)) => Ok(Value::Boolean(x <= y)),
            (Value::Number(_), bb) => Err(type_mismatch(op, &bb)),
            (aa, _) => Err(type_mismatch(op, &aa)),
        },
        TokenType::EqualEqual => Ok(Value::Boolean(a.equals(&b))),
        TokenType::BangEqual => Ok(Value::Boolean(!a.equals(&b))),
        _ => Err(type_mismatch(op, &a)),
    }
}

/// Runs a native function on its arguments, exactly as [`spec_native`]
/// says. Natives are pure: the environment is untouched.
fn native_result(id: NativeId, args: &Vec<Value>, token: &Token) -> (r: Result<Value, RuntimeError>)
    ensures
        match r {
            Ok(v) => spec_native(id, vals_view(args@), *token) == Ok::<ValueV, RuntimeError>(v@)
                && (forall|n: int| #[trigger] value_wf(v@, n)),
            Err(e1) => spec_native(id, vals_view(args@), *token) == Err::<ValueV, RuntimeError>(e1),
        },
{
    match id {
        NativeId::Abs => {
            if args.len() != 1 {
                Err(RuntimeError {
                    kind: RuntimeErrorKind::ArityMismatch { expected: 1, actual: args.len() },
                    line: token.line,
                })
            } else {
                match &args[0] {
                    Value::Number(n) => Ok(Value::Number(
                        if *n < 0 { (0i64).wrapping_sub(*n) } else { *n },
                    )),
                    other => Err(type_mismatch(token, other)),
                }
            }
        },
        NativeId::Max => {
            if args.len() != 2 {
                Err(RuntimeError {
                    kind: RuntimeErrorKind::ArityMismatch { expected: 2, actual: args.len() },
                    line: token.line,
                })
            } else {
                let a0 = &args[0];
                let a1 = &args[1];
                match (a0, a1) {
                    (Value::Number(x), Value::Number(y)) => Ok(Value::Number(
                        if *x >= *y { *x } else { *y },
                    )),
                    (Value::Number(_), v) => Err(type_mismatch(token, v)),
                    (v, _) => Err(type_mismatch(token, v)),
                }
            }
        },
    }
}

impl Interpreter {
    /// A fresh interpreter holding only the empty global scope.
    pub fn new() -> (interp: Interpreter)
        ensures
            interp@ == initial_env(),
            env_wf(interp@),
    {
        let env = Environment::new();
        proof {
            assert(env@ =~~= initial_env());
        }
        Interpreter { env }
    }

    /// Registers a host function under `name` in the global scope, as the
    /// embedding layer does before execution begins. The carried arity must
    /// be the real arity of the chosen native, so that the evaluator's
    /// arity check and the native's own agree.
    pub fn register_native(&mut self, name: &str, native: NativeFunction)
        requires
            env_wf(old(self)@),
            0 < old(self)@.len(),
            native.arity as int == crate::func::spec_native_arity(native.id),
        ensures
            final(self)@ == env_define(
                old(self)@,
                0,
                name@,
                ValueV::Callable(CallableV::Native { arity: native.arity, id: native.id }),
            ),
            env_wf(final(self)@),
            final(self)@.len() == old(self)@.len(),
    {
        let _ = self.env.define(0, name.to_owned(), Value::Callable(Callable::Native(native)));
    }

    /// Reads a global binding; tests and drivers observe results this way.
    pub fn lookup_global(&self, name: &Token) -> (r: Result<Value, RuntimeError>)
        requires
            env_wf(self@),
            0 < self@.len(),
        ensures
            match r {
                Ok(v) => env_lookup(self@, 0, name.lexeme@) == Some(v@),
                Err(e1) => env_lookup(self@, 0, name.lexeme@) is None && e1 == undef_err(*name),
            },
    {
        self.env.get(0, name)
    }

    /// Evaluates one expression node. Agrees exactly with [`spec_eval`]:
    /// same value or error, same final arena.
    pub fn evaluate(&mut self, scope: usize, e: &ExprKind, fuel: u64) -> (r: Result<
        Value,
        RuntimeError,
    >)
        requires
            env_wf(old(self)@),
            scope < old(self)@.len(),
        ensures
            ({
                let (sr, senv) = spec_eval(old(self)@, scope as int, *e, fuel as nat);
                &&& final(self)@ == senv
                &&& match r {
                    Ok(v) => sr == Ok::<ValueV, RuntimeError>(v@)
                        && value_wf(v@, final(self)@.len() as int),
                    Err(e1) => sr == Err::<ValueV, RuntimeError>(e1),
                }
                &&& env_wf(final(self)@)
                &&& old(self)@.len() <= final(self)@.len()
            }),
        decreases fuel, 0int,
    {
        if fuel == 0 {
            return Err(RuntimeError { kind: RuntimeErrorKind::RecursionLimit, line: 0 });
        }
        match e {
            ExprKind::Literal { value } => {
                let v = match value {
                    Literal::Str(s) => Value::Str(s.clone()),
                    Literal::Number(n) => Value::Number(*n),
                    Literal::Boolean(b) => Value::Boolean(*b),
                    Literal::Nil => Value::Nil,
                };
                Ok(v)
            },
            ExprKind::Grouping { expression } => self.evaluate(scope, expression, fuel - 1),
            ExprKind::Unary { operator, right } => {
                let v = match self.evaluate(scope, right, fuel - 1) {
                    Ok(v) => v,
                    Err(e1) => return Err(e1),
                };
                unary_result(operator, &v)
            },
            ExprKind::Binary { left, operator, right } => {
                let a = match self.evaluate(scope, left, fuel - 1) {
                    Ok(v) => v,
                    Err(e1) => return Err(e1),
                };
                let b = match self.evaluate(scope, right, fuel - 1) {
                    Ok(v) => v,
                    Err(e1) => return Err(e1),
                };
                binary_result(operator, a, b)
            },
            ExprKind::Logical { left, operator, right } => {
                let v = match self.evaluate(scope, left, fuel - 1) {
                    Ok(v) => v,
                    Err(e1) => return Err(e1),
                };
                if operator.token_type == TokenType::Or {
                    if v.is_truthy() {
                        Ok(v)
                    } else {
                        self.evaluate(scope, right, fuel - 1)
                    }
                } else {
                    if !v.is_truthy() {
                        Ok(v)
                    } else {
                        self.evaluate(scope, right, fuel - 1)
                    }
                }
            },
            ExprKind::Variable { name } => {
                proof {
                    crate::environment::lemma_env_lookup_wf(self@, scope as int, name.lexeme@);
                }
                self.env.get(scope, name)
            },
            ExprKind::Assign { name, value } => {
                let v = match self.evaluate(scope, value, fuel - 1) {
                    Ok(v) => v,
                    Err(e1) => return Err(e1),
                };
                self.env.assign(scope, name, v)
            },
            ExprKind::Call { callee, token, arguments } => {
                let cv = match self.evaluate(scope, callee, fuel - 1) {
                    Ok(v) => v,
                    Err(e1) => return Err(e1),
                };
                match cv {
                    Value::Callable(c) => {
                        let args = match self.eval_args(scope, arguments, 0, fuel - 1) {
                            Ok(a) => a,
                            Err(e1) => return Err(e1),
                        };
                        let ar = c.arity();
                        if args.len() != ar {
                            Err(RuntimeError {
                                kind: RuntimeErrorKind::ArityMismatch {
                                    expected: ar,
                                    actual: args.len(),
                                },
                                line: token.line,
                            })
                        } else {
                            self.invoke(&c, args, token, fuel - 1)
                        }
                    },
                    other => Err(RuntimeError {
                        kind: RuntimeErrorKind::NotCallable { found: other.kind() },
                        line: token.line,
                    }),
                }
            },
        }
    }

    /// Evaluates the argument expressions `args[i..]` left to right.
    /// Agrees exactly with [`spec_eval_args`].
    fn eval_args(&mut self, scope: usize, args: &Vec<ExprKind>, i: usize, fuel: u64) -> (r: Result<
        Vec<Value>,
        RuntimeError,
    >)
        requires
            env_wf(old(self)@),
            scope < old(self)@.len(),
            i <= args@.len(),
        ensures
            ({
                let (sr, senv) = spec_eval_args(old(self)@, scope as int, args@, i as int, fuel as nat);
                &&& final(self)@ == senv
                &&& match r {
                    Ok(vs) => sr == Ok::<Seq<ValueV>, RuntimeError>(vals_view(vs@)) && forall|j: int|
                        0 <= j < vs@.len() ==> value_wf(
                            #[trigger] vals_view(vs@)[j],
                            final(self)@.len() as int,
                        ),
                    Err(e1) => sr == Err::<Seq<ValueV>, RuntimeError>(e1),
                }
                &&& env_wf(final(self)@)
                &&& old(self)@.len() <= final(self)@.len()
            }),
        decreases fuel, args@.len() - i,
    {
        if fuel == 0 {
            return Err(RuntimeError { kind: RuntimeErrorKind::RecursionLimit, line: 0 });
        }
        if i >= args.len() {
            let empty: Vec<Value> = Vec::new();
            proof {
                assert(vals_view(empty@) =~= Seq::<ValueV>::empty());
            }
            return Ok(empty);
        }
        let v = match self.evaluate(scope, &args[i], fuel - 1) {
            Ok(v) => v,
            Err(e1) => return Err(e1),
        };
        let ghost mid_env = self@;
        let mut rest = match self.eval_args(scope, args, i + 1, fuel) {
            Ok(r0) => r0,
            Err(e1) => return Err(e1),
        };
        let ghost rest_snapshot = rest@;
        rest.insert(0, v);
        proof {
            assert(rest@ =~= rest_snapshot.insert(0, v));
            assert(vals_view(rest@) =~= seq![v@] + vals_view(rest_snapshot));
        }
        Ok(rest)
    }

    /// Invokes a callable on already-evaluated arguments. Agrees exactly
    /// with [`spec_invoke`]. The caller has checked the arity of user
    /// functions.
    fn invoke(&mut self, c: &Callable, args: Vec<Value>, token: &Token, fuel: u64) -> (r: Result<
        Value,
        RuntimeError,
    >)
        requires
            env_wf(old(self)@),
            value_wf(ValueV::Callable(c@), old(self)@.len() as int),
            c@ matches CallableV::Function { decl, .. } ==> args@.len() == decl.parameters@.len(),
            forall|j: int|
                0 <= j < args@.len() ==> value_wf(
                    #[trigger] vals_view(args@)[j],
                    old(self)@.len() as int,
                ),
        ensures
            ({
                let (sr, senv) = spec_invoke(old(self)@, c@, vals_view(args@), *token, fuel as nat);
                &&& final(self)@ == senv
                &&& match r {
                    Ok(v) => sr == Ok::<ValueV, RuntimeError>(v@)
                        && value_wf(v@, final(self)@.len() as int),
                    Err(e1) => sr == Err::<ValueV, RuntimeError>(e1),
                }
                &&& env_wf(final(self)@)
                &&& old(self)@.len() <= final(self)@.len()
            }),
        decreases fuel, 0int,
    {
        if fuel == 0 {
            return Err(RuntimeError { kind: RuntimeErrorKind::RecursionLimit, line: 0 });
        }
        match c {
            Callable::Native(nf) => native_result(nf.id, &args, token),
            Callable::Function(f) => {
                let ns = self.env.push_scope(f.closure);
                let decl = clone_decl(&f.declaration);
                let ghost env1 = self@;
                let ghost params = decl.parameters@;
                let ghost argvals = vals_view(args@);
                let mut k: usize = 0;
                proof {
                    assert(params.skip(0) =~= params);
                    assert(argvals.skip(0) =~= argvals);
                }
                while k < decl.parameters.len()
                    invariant
                        env_wf(self@),
                        ns < self@.len(),
                        self@.len() == env1.len(),
                        k <= params.len(),
                        params == decl.parameters@,
                        argvals == vals_view(args@),
                        args@.len() == params.len(),
                        forall|j: int|
                            0 <= j < args@.len() ==> value_wf(
                                #[trigger] vals_view(args@)[j],
                                self@.len() as int,
                            ),
                        bind_params(env1, ns as int, params, argvals) == bind_params(
                            self@,
                            ns as int,
                            params.skip(k as int),
                            argvals.skip(k as int),
                        ),
                    decreases params.len() - k,
                {
                    let pname = decl.parameters[k].lexeme.clone();
                    let av = args[k].clone();
                    proof {
                        assert(vals_view(args@)[k as int] == args@[k as int]@);
                        assert(params.skip(k as int)[0] == params[k as int]);
                        assert(argvals.skip(k as int)[0] == argvals[k as int]);
                        assert(params.skip(k as int).drop_first() =~= params.skip(k as int + 1));
                        assert(argvals.skip(k as int).drop_first() =~= argvals.skip(k as int + 1));
                    }
                    let _ = self.env.define(ns, pname, av);
                    k = k + 1;
                }
                proof {
                    assert(params.skip(k as int) =~= Seq::<Token>::empty());
                    assert(argvals.skip(k as int) =~= Seq::<ValueV>::empty());
                    assert(bind_params(env1, ns as int, params, argvals) == self@);
                }
                let fr = self.exec_stmts(ns, &decl.body, 0, fuel - 1);
                match fr {
                    Ok(Flow::Normal) => Ok(Value::Nil),
                    Ok(Flow::Return(v)) => Ok(v),
                    Err(e1) => Err(e1),
                }
            },
        }
    }

    /// Executes one statement node. Agrees exactly with [`spec_exec_stmt`].
    fn exec_stmt(&mut self, scope: usize, s: &StmtKind, fuel: u64) -> (r: Result<
        Flow,
        RuntimeError,
    >)
        requires
            env_wf(old(self)@),
            scope < old(self)@.len(),
        ensures
            ({
                let (sr, senv) = spec_exec_stmt(old(self)@, scope as int, *s, fuel as nat);
                &&& final(self)@ == senv
                &&& match r {
                    Ok(f) => sr == Ok::<FlowV, RuntimeError>(f@) && (f matches Flow::Return(v)
                        ==> value_wf(v@, final(self)@.len() as int)),
                    Err(e1) => sr == Err::<FlowV, RuntimeError>(e1),
                }
                &&& env_wf(final(self)@)
                &&& old(self)@.len() <= final(self)@.len()
            }),
        decreases fuel, 0int,
    {
        if fuel == 0 {
            return Err(RuntimeError { kind: RuntimeErrorKind::RecursionLimit, line: 0 });
        }
        match s {
            StmtKind::Expression { expression } => {
                match self.evaluate(scope, expression, fuel - 1) {
                    Ok(_) => Ok(Flow::Normal),
                    Err(e1) => Err(e1),
                }
            },
            StmtKind::Var { name, initializer } => {
                let v = match initializer {
                    Some(init) => match self.evaluate(scope, init, fuel - 1) {
                        Ok(v) => v,
                        Err(e1) => return Err(e1),
                    },
                    None => Value::Nil,
                };
                let _ = self.env.define(scope, name.lexeme.clone(), v);
                Ok(Flow::Normal)
            },
            StmtKind::Block { statements } => {
                let ns = self.env.push_scope(scope);
                self.exec_stmts(ns, statements, 0, fuel - 1)
            },
            StmtKind::If { condition, then_branch, else_branch } => {
                let v = match self.evaluate(scope, condition, fuel - 1) {
                    Ok(v) => v,
                    Err(e1) => return Err(e1),
                };
                if v.is_truthy() {
                    self.exec_stmt(scope, then_branch, fuel - 1)
                } else {
                    match else_branch {
                        Some(eb) => self.exec_stmt(scope, eb, fuel - 1),
                        None => Ok(Flow::Normal),
                    }
                }
            },
            StmtKind::While { condition, body } => {
                let v = match self.evaluate(scope, condition, fuel - 1) {
                    Ok(v) => v,
                    Err(e1) => return Err(e1),
                };
                if !v.is_truthy() {
                    Ok(Flow::Normal)
                } else {
                    match self.exec_stmt(scope, body, fuel - 1) {
                        Ok(Flow::Normal) => self.exec_stmt(scope, s, fuel - 1),
                        Ok(Flow::Return(rv)) => Ok(Flow::Return(rv)),
                        Err(e1) => Err(e1),
                    }
                }
            },
            StmtKind::Function { decl } => {
                let f = Value::Callable(Callable::Function(crate::func::ReefFunction {
                    declaration: clone_decl(decl),
                    closure: scope,
                }));
                let _ = self.env.define(scope, decl.name.lexeme.clone(), f);
                Ok(Flow::Normal)
            },
            StmtKind::Return { keyword: _, value } => {
                match value {
                    Some(e0) => match self.evaluate(scope, e0, fuel - 1) {
                        Ok(v) => Ok(Flow::Return(v)),
                        Err(e1) => Err(e1),
                    },
                    None => Ok(Flow::Return(Value::Nil)),
                }
            },
        }
    }

    /// Executes the statements `stmts[i..]` in order. Agrees exactly with
    /// [`spec_exec_stmts`].
    fn exec_stmts(&mut self, scope: usize, stmts: &Vec<StmtKind>, i: usize, fuel: u64) -> (r:
        Result<Flow, RuntimeError>)
        requires
            env_wf(old(self)@),
            scope < old(self)@.len(),
            i <= stmts@.len(),
        ensures
            ({
                let (sr, senv) = spec_exec_stmts(
                    old(self)@,
                    scope as int,
                    stmts@,
                    i as int,
                    fuel as nat,
                );
                &&& final(self)@ == senv
                &&& match r {
                    Ok(f) => sr == Ok::<FlowV, RuntimeError>(f@) && (f matches Flow::Return(v)
                        ==> value_wf(v@, final(self)@.len() as int)),
                    Err(e1) => sr == Err::<FlowV, RuntimeError>(e1),
                }
                &&& env_wf(final(self)@)
                &&& old(self)@.len() <= final(self)@.len()
            }),
        decreases fuel, stmts@.len() - i,
    {
        if fuel == 0 {
            return Err(RuntimeError { kind: RuntimeErrorKind::RecursionLimit, line: 0 });
        }
        if i >= stmts.len() {
            return Ok(Flow::Normal);
        }
        match self.exec_stmt(scope, &stmts[i], fuel - 1) {
            Ok(Flow::Normal) => self.exec_stmts(scope, stmts, i + 1, fuel),
            Ok(Flow::Return(v)) => Ok(Flow::Return(v)),
            Err(e1) => Err(e1),
        }
    }

    /// Executes a whole parsed unit against the global scope, as the driver
    /// does once per input. Agrees exactly with [`spec_execute`]; bindings
    /// made before a failure keep their effect.
    pub fn execute(&mut self, statements: &Vec<StmtKind>, fuel: u64) -> (r: Result<
        (),
        RuntimeError,
    >)
        requires
            env_wf(old(self)@),
            0 < old(self)@.len(),
        ensures
            ({
                let (sr, senv) = spec_execute(old(self)@, statements@, fuel as nat);
                &&& final(self)@ == senv
                &&& r == sr
                &&& env_wf(final(self)@)
                &&& old(self)@.len() <= final(self)@.len()
            }),
    {
        match self.exec_stmts(0, statements, 0, fuel) {
            Ok(Flow::Normal) => Ok(()),
            Ok(Flow::Return(_)) => Err(RuntimeError {
                kind: RuntimeErrorKind::ReturnOutsideFunction,
                line: 0,
            }),
            Err(e1) => Err(e1),
        }
    }

    /// Evaluates one expression in a fresh interpreter with the default
    /// step budget, wrapping any runtime failure for the driver.
    pub fn eval_expression(expr_kind: &ExprKind) -> (r: Result<Value, ReefError>)
        ensures
            ({
                let (sr, _) = spec_eval(initial_env(), 0, *expr_kind, DEFAULT_FUEL as nat);
                match r {
                    Ok(v) => sr == Ok::<ValueV, RuntimeError>(v@),
                    Err(ReefError::RuntimeError(e1)) => sr == Err::<ValueV, RuntimeError>(e1),
                    Err(_) => false,
                }
            }),
    {
        let mut interp = Interpreter::new();
        match interp.evaluate(0, expr_kind, DEFAULT_FUEL) {
            Ok(v) => Ok(v),
            Err(e1) => Err(ReefError::RuntimeError(e1)),
        }
    }
}

impl Expr {
    /// Evaluates one expression node against an otherwise empty
    /// environment; see [`Interpreter::eval_expression`].
    pub fn evaluate(data: &ExprKind) -> (r: Result<Value, ReefError>)
        ensures
            ({
                let (sr, _) = spec_eval(initial_env(), 0, *data, DEFAULT_FUEL as nat);
                match r {
                    Ok(v) => sr == Ok::<ValueV, RuntimeError>(v@),
                    Err(ReefError::RuntimeError(e1)) => sr == Err::<ValueV, RuntimeError>(e1),
                    Err(_) => false,
                }
            }),
    {
        Interpreter::eval_expression(data)
    }
}

} // verus!
