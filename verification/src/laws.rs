use vstd::prelude::*;

use crate::environment::{
    env_assign, env_define, env_lookup, env_push, env_resolve, scope_lookup, ScopeV,
};
use crate::error::{RuntimeError, RuntimeErrorKind};
use crate::expr::{spec_truthy, ExprKind, ValueV};
use crate::func::{spec_callable_arity, CallableV, FunctionDecl};
use crate::interpreter::{
    bind_params, limit_err, spec_eval, spec_eval_args, spec_exec_stmt, spec_exec_stmts,
    spec_invoke, undef_err, FlowV,
};
use crate::stmt::StmtKind;
use crate::token::{Literal, Token, TokenType};

verus! {

/// A chain walk only visits scopes at or below its starting index, so two
/// arenas that agree on those scopes resolve a name identically.
pub proof fn lemma_lookup_agree(enva: Seq<ScopeV>, envb: Seq<ScopeV>, scope: int, name: Seq<char>)
    requires
        scope < enva.len(),
        scope < envb.len(),
        forall|i: int| 0 <= i <= scope ==> enva[i] == envb[i],
    ensures
        env_lookup(enva, scope, name) == env_lookup(envb, scope, name),
    decreases scope,
{
    if 0 <= scope {
        match enva[scope].parent {
            Some(p) => {
                if 0 <= p < scope {
                    lemma_lookup_agree(enva, envb, p, name);
                }
            },
            None => {},
        }
    }
}

/// Shadowing: declaring a name in a fresh child scope makes reads through
/// that scope see the new value, while the enclosing scope's binding is
/// untouched and reads there still see the old value.
pub proof fn lemma_shadowing(
    env: Seq<ScopeV>,
    outer: int,
    name: Seq<char>,
    vo: ValueV,
    vi: ValueV,
)
    requires
        0 <= outer < env.len(),
        env_lookup(env, outer, name) == Some(vo),
    ensures
        ({
            let inner = env.len() as int;
            let env2 = env_define(env_push(env, outer), inner, name, vi);
            &&& env_lookup(env2, inner, name) == Some(vi)
            &&& env_lookup(env2, outer, name) == Some(vo)
        }),
{
    let inner = env.len() as int;
    let env1 = env_push(env, outer);
    let env2 = env_define(env1, inner, name, vi);
    assert(env2[inner].bindings =~= seq![(name, vi)]);
    assert(scope_lookup(env2[inner].bindings, name) == Some(vi));
    assert(forall|i: int| 0 <= i <= outer ==> env2[i] == env[i]);
    lemma_lookup_agree(env2, env, outer, name);
}

/// Assignment through the shadow chain: when the current scope has no local
/// binding for the name but its parent chain does, assignment rewrites the
/// binding in the scope where the walk found it — here the direct parent —
/// and a later read from that enclosing scope sees the assigned value.
pub proof fn lemma_assign_through_chain(
    env: Seq<ScopeV>,
    inner: int,
    outer: int,
    name: Seq<char>,
    v: ValueV,
)
    requires
        0 <= outer < inner < env.len(),
        env[inner].parent == Some(outer),
        scope_lookup(env[inner].bindings, name) is None,
        scope_lookup(env[outer].bindings, name) is Some,
    ensures
        env_assign(env, inner, name, v) == Some(env_define(env, outer, name, v)),
        env_lookup(env_define(env, outer, name, v), outer, name) == Some(v),
{
    assert(env_resolve(env, inner, name) == env_resolve(env, outer, name));
    assert(env_resolve(env, outer, name) == Some(outer));
    let env2 = env_define(env, outer, name, v);
    assert(env2[outer].bindings == env[outer].bindings.push((name, v)));
    assert(env2[outer].bindings.last() == (name, v));
    assert(scope_lookup(env2[outer].bindings, name) == Some(v));
}

/// Assignment never creates a binding: when no scope on the chain binds the
/// name, the assignment fails and the arena is left exactly as it was.
pub proof fn lemma_assign_never_defines(env: Seq<ScopeV>, scope: int, name: Seq<char>, v: ValueV)
    requires
        env_lookup(env, scope, name) is None,
    ensures
        env_assign(env, scope, name, v) is None,
    decreases scope,
{
    if 0 <= scope < env.len() {
        if scope_lookup(env[scope].bindings, name) is Some {
        } else {
            match env[scope].parent {
                Some(p) => {
                    if 0 <= p < scope {
                        lemma_assign_never_defines(env, p, name, v);
                    }
                },
                None => {},
            }
        }
    }
}

/// Arithmetic on number operands is exactly the machine arithmetic of the
/// language's 64-bit numbers: sums, differences and products wrap, division
/// truncates, comparisons are the integer orderings, and division by zero
/// alone fails, with the division-by-zero error at the operator's line.
pub proof fn lemma_arithmetic(
    env: Seq<ScopeV>,
    scope: int,
    left: Box<ExprKind>,
    op: Token,
    right: Box<ExprKind>,
    fuel: nat,
    x: i64,
    y: i64,
)
    requires
        fuel > 0,
        spec_eval(env, scope, *left, (fuel - 1) as nat).0 == Ok::<ValueV, RuntimeError>(
            ValueV::Number(x),
        ),
        spec_eval(
            spec_eval(env, scope, *left, (fuel - 1) as nat).1,
            scope,
            *right,
            (fuel - 1) as nat,
        ).0 == Ok::<ValueV, RuntimeError>(ValueV::Number(y)),
    ensures
        ({
            let e = ExprKind::Binary { left, operator: op, right };
            let env2 = spec_eval(
                spec_eval(env, scope, *left, (fuel - 1) as nat).1,
                scope,
                *right,
                (fuel - 1) as nat,
            ).1;
            &&& spec_eval(env, scope, e, fuel).1 == env2
            &&& op.token_type == TokenType::Plus ==> spec_eval(env, scope, e, fuel).0 == Ok::<
                ValueV,
                RuntimeError,
            >(ValueV::Number(x.wrapping_add(y)))
            &&& op.token_type == TokenType::Minus ==> spec_eval(env, scope, e, fuel).0 == Ok::<
                ValueV,
                RuntimeError,
            >(ValueV::Number(x.wrapping_sub(y)))
            &&& op.token_type == TokenType::Star ==> spec_eval(env, scope, e, fuel).0 == Ok::<
                ValueV,
                RuntimeError,
            >(ValueV::Number(x.wrapping_mul(y)))
            &&& (op.token_type == TokenType::Slash && y != 0) ==> spec_eval(env, scope, e, fuel).0
                == Ok::<ValueV, RuntimeError>(ValueV::Number(crate::interpreter::spec_div(x, y)))
            &&& (op.token_type == TokenType::Slash && y == 0) ==> spec_eval(env, scope, e, fuel).0
                == Err::<ValueV, RuntimeError>(
                RuntimeError { kind: RuntimeErrorKind::DivisionByZero, line: op.line },
            )
            &&& op.token_type == TokenType::Less ==> spec_eval(env, scope, e, fuel).0 == Ok::<
                ValueV,
                RuntimeError,
            >(ValueV::Boolean(x < y))
            &&& op.token_type == TokenType::LessEqual ==> spec_eval(env, scope, e, fuel).0 == Ok::<
                ValueV,
                RuntimeError,
            >(ValueV::Boolean(x <= y))
            &&& op.token_type == TokenType::Greater ==> spec_eval(env, scope, e, fuel).0 == Ok::<
                ValueV,
                RuntimeError,
            >(ValueV::Boolean(x > y))
            &&& op.token_type == TokenType::GreaterEqual ==> spec_eval(env, scope, e, fuel).0
                == Ok::<ValueV, RuntimeError>(ValueV::Boolean(x >= y))
        }),
{
}

/// String concatenation: `+` on two strings yields their concatenation;
/// `+` on a string and a non-string fails with a type mismatch that names
/// the operator and the kind of the offending right operand.
pub proof fn lemma_string_concat(
    env: Seq<ScopeV>,
    scope: int,
    left: Box<ExprKind>,
    op: Token,
    right: Box<ExprKind>,
    fuel: nat,
    a: ValueV,
    b: ValueV,
)
    requires
        fuel > 0,
        op.token_type == TokenType::Plus,
        spec_eval(env, scope, *left, (fuel - 1) as nat).0 == Ok::<ValueV, RuntimeError>(a),
        spec_eval(
            spec_eval(env, scope, *left, (fuel - 1) as nat).1,
            scope,
            *right,
            (fuel - 1) as nat,
        ).0 == Ok::<ValueV, RuntimeError>(b),
        a matches ValueV::Str(_),
    ensures
        ({
            let e = ExprKind::Binary { left, operator: op, right };
            &&& (b matches ValueV::Str(t) && a matches ValueV::Str(s)) ==> spec_eval(
                env,
                scope,
                e,
                fuel,
            ).0 == Ok::<ValueV, RuntimeError>(ValueV::Str(a->Str_0 + b->Str_0))
            &&& !(b matches ValueV::Str(_)) ==> spec_eval(env, scope, e, fuel).0 == Err::<
                ValueV,
                RuntimeError,
            >(crate::interpreter::type_err(op, b))
        }),
{
}

/// Reading or assigning an undefined variable fails with the
/// undefined-variable error, which names the identifier and its source
/// line; a failed assignment leaves the arena untouched.
pub proof fn lemma_undefined_variable(
    env: Seq<ScopeV>,
    scope: int,
    name: Token,
    value: Box<ExprKind>,
    fuel: nat,
    v: ValueV,
)
    requires
        fuel > 0,
        env_lookup(env, scope, name.lexeme@) is None,
    ensures
        spec_eval(env, scope, ExprKind::Variable { name }, fuel) == (
            Err::<ValueV, RuntimeError>(undef_err(name)),
            env,
        ),
        undef_err(name).kind == (RuntimeErrorKind::UndefinedVariable { name: name.lexeme }),
        undef_err(name).line == name.line,
        ({
            let (rv, env1) = spec_eval(env, scope, *value, (fuel - 1) as nat);
            (rv == Ok::<ValueV, RuntimeError>(v) && env_lookup(env1, scope, name.lexeme@) is None)
                ==> spec_eval(env, scope, ExprKind::Assign { name, value }, fuel) == (
                Err::<ValueV, RuntimeError>(undef_err(name)),
                env1,
            )
        }),
{
    let (rv, env1) = spec_eval(env, scope, *value, (fuel - 1) as nat);
    if rv == Ok::<ValueV, RuntimeError>(v) && env_lookup(env1, scope, name.lexeme@) is None {
        lemma_assign_never_defines(env1, scope, name.lexeme@, v);
    }
}

/// Short-circuit `and`: when the left operand is falsy, the whole
/// expression is that operand's value — not a coerced boolean — the arena
/// is exactly as the left operand left it, and the right operand plays no
/// part (the conclusion holds for every `right`).
pub proof fn lemma_and_short_circuit(
    env: Seq<ScopeV>,
    scope: int,
    left: Box<ExprKind>,
    op: Token,
    right: Box<ExprKind>,
    fuel: nat,
    v: ValueV,
)
    requires
        fuel > 0,
        op.token_type == TokenType::And,
        spec_eval(env, scope, *left, (fuel - 1) as nat).0 == Ok::<ValueV, RuntimeError>(v),
        !spec_truthy(v),
    ensures
        spec_eval(env, scope, ExprKind::Logical { left, operator: op, right }, fuel) == (
            Ok::<ValueV, RuntimeError>(v),
            spec_eval(env, scope, *left, (fuel - 1) as nat).1,
        ),
{
}

/// Short-circuit `or`: when the left operand is truthy, the whole
/// expression is that operand's value, the arena is exactly as the left
/// operand left it, and the right operand plays no part.
pub proof fn lemma_or_short_circuit(
    env: Seq<ScopeV>,
    scope: int,
    left: Box<ExprKind>,
    op: Token,
    right: Box<ExprKind>,
    fuel: nat,
    v: ValueV,
)
    requires
        fuel > 0,
        op.token_type == TokenType::Or,
        spec_eval(env, scope, *left, (fuel - 1) as nat).0 == Ok::<ValueV, RuntimeError>(v),
        spec_truthy(v),
    ensures
        spec_eval(env, scope, ExprKind::Logical { left, operator: op, right }, fuel) == (
            Ok::<ValueV, RuntimeError>(v),
            spec_eval(env, scope, *left, (fuel - 1) as nat).1,
        ),
{
}

/// Arity mismatch: a call whose callee evaluates to a callable and whose
/// arguments evaluate to a list of the wrong length fails with an error
/// reporting both the expected and the actual count, at the call's line.
pub proof fn lemma_arity_mismatch(
    env: Seq<ScopeV>,
    scope: int,
    callee: Box<ExprKind>,
    token: Token,
    arguments: Vec<ExprKind>,
    fuel: nat,
    c: CallableV,
    vals: Seq<ValueV>,
)
    requires
        fuel > 0,
        spec_eval(env, scope, *callee, (fuel - 1) as nat).0 == Ok::<ValueV, RuntimeError>(
            ValueV::Callable(c),
        ),
        spec_eval_args(
            spec_eval(env, scope, *callee, (fuel - 1) as nat).1,
            scope,
            arguments@,
            0,
            (fuel - 1) as nat,
        ).0 == Ok::<Seq<ValueV>, RuntimeError>(vals),
        vals.len() as int != spec_callable_arity(c),
    ensures
        spec_eval(env, scope, ExprKind::Call { callee, token, arguments }, fuel).0 == Err::<
            ValueV,
            RuntimeError,
        >(
            RuntimeError {
                kind: RuntimeErrorKind::ArityMismatch {
                    expected: spec_callable_arity(c) as usize,
                    actual: vals.len() as usize,
                },
                line: token.line,
            },
        ),
{
}

/// Lexical capture: invoking a user function runs its body in a fresh
/// scope whose enclosing scope is the one the function captured at its
/// declaration — whatever scope the call happens from. The caller's scope
/// does not appear in the new scope's chain link.
pub proof fn lemma_call_uses_defining_scope(
    env: Seq<ScopeV>,
    decl: FunctionDecl,
    closure: int,
    args: Seq<ValueV>,
    token: Token,
    fuel: nat,
)
    requires
        fuel > 0,
    ensures
        ({
            let ns = env.len() as int;
            let env2 = bind_params(env_push(env, closure), ns, decl.parameters@, args);
            &&& env2.len() > ns
            &&& env2[ns].parent == Some(closure)
            &&& spec_invoke(env, CallableV::Function { decl, closure }, args, token, fuel).1
                == crate::interpreter::spec_exec_stmts(
                env2,
                ns,
                decl.body@,
                0,
                (fuel - 1) as nat,
            ).1
        }),
{
    let ns = env.len() as int;
    let env1 = env_push(env, closure);
    lemma_bind_params_shape(env1, ns, decl.parameters@, args);
}

/// Lexical capture, declaration side: executing a function declaration
/// builds a callable whose captured scope is exactly the scope that was
/// current at the declaration, and binds it there under the function's own
/// name — which is what lets the function call itself.
pub proof fn lemma_declaration_captures_current_scope(
    env: Seq<ScopeV>,
    scope: int,
    decl: std::rc::Rc<FunctionDecl>,
    fuel: nat,
)
    requires
        fuel > 0,
    ensures
        spec_exec_stmt(env, scope, crate::stmt::StmtKind::Function { decl }, fuel) == (
            Ok::<crate::interpreter::FlowV, RuntimeError>(crate::interpreter::FlowV::Normal),
            env_define(
                env,
                scope,
                (*decl).name.lexeme@,
                ValueV::Callable(CallableV::Function { decl: *decl, closure: scope }),
            ),
        ),
{
}

/// Binding parameters only adds bindings to the call scope: the arena's
/// length and every scope's parent link are untouched.
pub proof fn lemma_bind_params_shape(
    env: Seq<ScopeV>,
    scope: int,
    params: Seq<Token>,
    args: Seq<ValueV>,
)
    requires
        0 <= scope < env.len(),
    ensures
        bind_params(env, scope, params, args).len() == env.len(),
        forall|i: int|
            0 <= i < env.len() ==> #[trigger] bind_params(env, scope, params, args)[i].parent
                == env[i].parent,
    decreases params.len(),
{
    if params.len() == 0 {
    } else {
        let env1 = env_define(env, scope, params[0].lexeme@, args[0]);
        lemma_bind_params_shape(env1, scope, params.drop_first(), args.drop_first());
    }
}

/// An exhausted step budget fails gracefully: with no fuel, evaluation of
/// any expression or statement yields exactly the recursion-limit error and
/// leaves the arena unchanged.
pub proof fn lemma_fuel_exhausted(env: Seq<ScopeV>, scope: int, e: ExprKind, s: crate::stmt::StmtKind)
    ensures
        spec_eval(env, scope, e, 0) == (Err::<ValueV, RuntimeError>(limit_err()), env),
        spec_exec_stmt(env, scope, s, 0) == (Err::<
            crate::interpreter::FlowV,
            RuntimeError,
        >(limit_err()), env),
{
}

/// An expression is pure when it only reads: no assignment and no call
/// anywhere inside it.
pub open spec fn pure_expr(e: ExprKind) -> bool
    decreases e,
{
    match e {
        ExprKind::Literal { .. } => true,
        ExprKind::Variable { .. } => true,
        ExprKind::Grouping { expression } => pure_expr(*expression),
        ExprKind::Unary { right, .. } => pure_expr(*right),
        ExprKind::Binary { left, right, .. } => pure_expr(*left) && pure_expr(*right),
        ExprKind::Logical { left, right, .. } => pure_expr(*left) && pure_expr(*right),
        ExprKind::Assign { .. } => false,
        ExprKind::Call { .. } => false,
    }
}

/// A pure expression leaves the arena exactly as it found it.
pub proof fn lemma_pure_preserves_env(env: Seq<ScopeV>, scope: int, e: ExprKind, fuel: nat)
    requires
        pure_expr(e),
    ensures
        spec_eval(env, scope, e, fuel).1 == env,
    decreases fuel,
{
    if fuel == 0 {
    } else {
        match e {
            ExprKind::Grouping { expression } => {
                lemma_pure_preserves_env(env, scope, *expression, (fuel - 1) as nat);
            },
            ExprKind::Unary { right, .. } => {
                lemma_pure_preserves_env(env, scope, *right, (fuel - 1) as nat);
            },
            ExprKind::Binary { left, right, .. } => {
                lemma_pure_preserves_env(env, scope, *left, (fuel - 1) as nat);
                lemma_pure_preserves_env(env, scope, *right, (fuel - 1) as nat);
            },
            ExprKind::Logical { left, right, .. } => {
                lemma_pure_preserves_env(env, scope, *left, (fuel - 1) as nat);
                lemma_pure_preserves_env(env, scope, *right, (fuel - 1) as nat);
            },
            _ => {},
        }
    }
}

/// Round-trip idempotence: evaluating a pure expression, then evaluating it
/// again against the arena the first evaluation left behind, yields the
/// same outcome both times, and neither evaluation changes the arena.
pub proof fn lemma_pure_repeatable(env: Seq<ScopeV>, scope: int, e: ExprKind, fuel: nat)
    requires
        pure_expr(e),
    ensures
        ({
            let (r1, env1) = spec_eval(env, scope, e, fuel);
            let (r2, env2) = spec_eval(env1, scope, e, fuel);
            &&& env1 == env
            &&& env2 == env
            &&& r2 == r1
        }),
{
    lemma_pure_preserves_env(env, scope, e, fuel);
}

/// The scope `t` lies on the parent chain that starts at `scope`, the
/// starting scope itself included.
pub open spec fn env_chain_contains(env: Seq<ScopeV>, scope: int, t: int) -> bool
    decreases scope,
{
    if 0 <= scope < env.len() {
        scope == t || (match env[scope].parent {
            Some(p) => 0 <= p < scope && env_chain_contains(env, p, t),
            None => false,
        })
    } else {
        false
    }
}

/// Lookup and resolution agree: a chain walk finds a value exactly when it
/// finds a scope to charge it to; that scope is on the chain, inside the
/// arena, binds the name, and holds the value the walk returns.
pub proof fn lemma_lookup_resolve(env: Seq<ScopeV>, scope: int, name: Seq<char>)
    ensures
        match env_resolve(env, scope, name) {
            Some(t) => {
                &&& 0 <= t <= scope && t < env.len()
                &&& env_chain_contains(env, scope, t)
                &&& scope_lookup(env[t].bindings, name) is Some
                &&& env_lookup(env, scope, name) == scope_lookup(env[t].bindings, name)
            },
            None => env_lookup(env, scope, name) is None,
        },
    decreases scope,
{
    if 0 <= scope < env.len() {
        if scope_lookup(env[scope].bindings, name) is Some {
        } else {
            match env[scope].parent {
                Some(p) => {
                    if 0 <= p < scope {
                        lemma_lookup_resolve(env, p, name);
                    }
                },
                None => {},
            }
        }
    }
}

/// After a successful assignment, a read from the same starting scope sees
/// the assigned value.
pub proof fn lemma_assign_then_lookup(env: Seq<ScopeV>, scope: int, name: Seq<char>, v: ValueV)
    ensures
        env_assign(env, scope, name, v) matches Some(env2) ==> env_lookup(env2, scope, name)
            == Some(v),
    decreases scope,
{
    if 0 <= scope < env.len() {
        if scope_lookup(env[scope].bindings, name) is Some {
            let env2 = env_define(env, scope, name, v);
            assert(env2[scope].bindings.last() == (name, v));
            assert(scope_lookup(env2[scope].bindings, name) == Some(v));
        } else {
            match env[scope].parent {
                Some(p) => {
                    if 0 <= p < scope {
                        lemma_lookup_resolve(env, p, name);
                        lemma_assign_then_lookup(env, p, name, v);
                        match env_resolve(env, p, name) {
                            Some(t) => {
                                let env2 = env_define(env, t, name, v);
                                assert(env2[scope] == env[scope]);
                                assert(scope_lookup(env2[scope].bindings, name) is None);
                            },
                            None => {},
                        }
                    }
                },
                None => {},
            }
        }
    }
}

/// Freshness: a parent chain never leaves the arena and never climbs
/// upward, so a scope appended later — such as the call scope a function
/// invocation creates — lies on no chain that existed before it. Together
/// with [`lemma_define_outside_chain`] this is why counters made by
/// separate invocations of the same outer function are independent.
pub proof fn lemma_chain_within(env: Seq<ScopeV>, scope: int, t: int)
    ensures
        env_chain_contains(env, scope, t) ==> 0 <= t < env.len() && t <= scope,
    decreases scope,
{
    if 0 <= scope < env.len() {
        match env[scope].parent {
            Some(p) => {
                if 0 <= p < scope {
                    lemma_chain_within(env, p, t);
                }
            },
            None => {},
        }
    }
}

/// Independent chains: a binding written to a scope that is not on a
/// reader's parent chain leaves every read of that name through the
/// reader's chain unchanged. Two closures whose captured chains are
/// disjoint therefore cannot observe each other's counters.
pub proof fn lemma_define_outside_chain(
    env: Seq<ScopeV>,
    scope: int,
    t: int,
    name: Seq<char>,
    v: ValueV,
)
    requires
        0 <= t < env.len(),
        !env_chain_contains(env, scope, t),
    ensures
        env_lookup(env_define(env, t, name, v), scope, name) == env_lookup(env, scope, name),
    decreases scope,
{
    let env2 = env_define(env, t, name, v);
    if 0 <= scope < env.len() {
        assert(scope != t);
        assert(env2[scope] == env[scope]);
        match env[scope].parent {
            Some(p) => {
                if 0 <= p < scope {
                    assert(!env_chain_contains(env, p, t));
                    lemma_define_outside_chain(env, p, t, name, v);
                }
            },
            None => {},
        }
    }
}

/// The counter law for closures: invoking a parameterless function whose
/// body increments a captured variable and returns it yields the
/// incremented number — and because the call scope's parent is the
/// captured scope, which the closure aliases rather than copies, the
/// increment lands in the captured chain and persists: a read through the
/// captured scope afterwards, such as the next call of the same closure,
/// sees the new value. The whole resulting arena is pinned: it is exactly
/// the old one with the fresh call scope and that one assignment, so a
/// closure over a chain that misses the assigned scope observes nothing
/// (see [`lemma_define_outside_chain`]).
pub proof fn lemma_counter_closure(
    env: Seq<ScopeV>,
    closure: int,
    decl: FunctionDecl,
    iname: Token,
    plus: Token,
    ret_kw: Token,
    ivar: Box<ExprKind>,
    one: Box<ExprKind>,
    incr: Box<ExprKind>,
    token: Token,
    n: i64,
    fuel: nat,
)
    requires
        fuel >= 6,
        plus.token_type == TokenType::Plus,
        *ivar == (ExprKind::Variable { name: iname }),
        *one == (ExprKind::Literal { value: Literal::Number(1) }),
        *incr == (ExprKind::Binary { left: ivar, operator: plus, right: one }),
        decl.parameters@ == Seq::<Token>::empty(),
        decl.body@ =~= seq![
            StmtKind::Expression { expression: ExprKind::Assign { name: iname, value: incr } },
            StmtKind::Return {
                keyword: ret_kw,
                value: Some(ExprKind::Variable { name: iname }),
            },
        ],
        0 <= closure < env.len(),
        env_lookup(env, closure, iname.lexeme@) == Some(ValueV::Number(n)),
    ensures
        ({
            let (r, envout) = spec_invoke(
                env,
                CallableV::Function { decl, closure },
                Seq::empty(),
                token,
                fuel,
            );
            let next = ValueV::Number(n.wrapping_add(1));
            &&& r == Ok::<ValueV, RuntimeError>(next)
            &&& env_lookup(envout, closure, iname.lexeme@) == Some(next)
            &&& Some(envout) == env_assign(
                env_push(env, closure),
                env.len() as int,
                iname.lexeme@,
                next,
            )
        }),
{
    let name = iname.lexeme@;
    let next = ValueV::Number(n.wrapping_add(1));
    let ns = env.len() as int;
    let env1 = env_push(env, closure);
    assert(env1[ns].bindings.len() == 0);
    assert(env1[ns].parent == Some(closure));
    assert(bind_params(env1, ns, decl.parameters@, Seq::empty()) == env1);
    assert(forall|i: int| 0 <= i <= closure ==> env1[i] == env[i]);
    lemma_lookup_agree(env1, env, closure, name);
    assert(scope_lookup(env1[ns].bindings, name) is None);
    assert(env_lookup(env1, ns, name) == Some(ValueV::Number(n)));

    let f1 = (fuel - 1) as nat;
    let f2 = (f1 - 1) as nat;
    let f3 = (f2 - 1) as nat;
    let f4 = (f3 - 1) as nat;
    let f5 = (f4 - 1) as nat;

    // reading the counter and the literal is pure
    assert(spec_eval(env1, ns, *ivar, f5) == (Ok::<ValueV, RuntimeError>(ValueV::Number(n)), env1));
    assert(spec_eval(env1, ns, *one, f5) == (
        Ok::<ValueV, RuntimeError>(ValueV::Number(1i64)),
        env1,
    ));
    assert(spec_eval(env1, ns, *incr, f4) == (Ok::<ValueV, RuntimeError>(next), env1));

    // the assignment resolves through the empty call scope into the chain
    lemma_lookup_resolve(env1, ns, name);
    assert(env_assign(env1, ns, name, next) is Some);
    let env3 = env_assign(env1, ns, name, next)->Some_0;
    let assign_expr = ExprKind::Assign { name: iname, value: incr };
    assert(spec_eval(env1, ns, assign_expr, f3) == (Ok::<ValueV, RuntimeError>(next), env3));

    let stmt0 = StmtKind::Expression { expression: assign_expr };
    assert(decl.body@[0] == stmt0);
    assert(spec_exec_stmt(env1, ns, stmt0, f2) == (
        Ok::<FlowV, RuntimeError>(FlowV::Normal),
        env3,
    ));

    // the chain now reads the incremented value
    lemma_assign_then_lookup(env1, ns, name, next);
    assert(env_lookup(env3, ns, name) == Some(next));

    let stmt1 = StmtKind::Return { keyword: ret_kw, value: Some(ExprKind::Variable { name: iname }) };
    assert(decl.body@[1] == stmt1);
    assert(spec_eval(env3, ns, ExprKind::Variable { name: iname }, f3) == (
        Ok::<ValueV, RuntimeError>(next),
        env3,
    ));
    assert(spec_exec_stmt(env3, ns, stmt1, f2) == (
        Ok::<FlowV, RuntimeError>(FlowV::Return(next)),
        env3,
    ));
    assert(spec_exec_stmts(env3, ns, decl.body@, 1, f1) == (
        Ok::<FlowV, RuntimeError>(FlowV::Return(next)),
        env3,
    ));
    assert(spec_exec_stmts(env1, ns, decl.body@, 0, f1) == (
        Ok::<FlowV, RuntimeError>(FlowV::Return(next)),
        env3,
    ));
    assert(spec_invoke(env, CallableV::Function { decl, closure }, Seq::empty(), token, fuel)
        == (Ok::<ValueV, RuntimeError>(next), env3));

    // assigning from the call scope is assigning from the captured scope
    assert(env_assign(env1, ns, name, next) == env_assign(env1, closure, name, next));
    lemma_assign_then_lookup(env1, closure, name, next);
    assert(env_lookup(env3, closure, name) == Some(next));
}

} // verus!
