use std::rc::Rc;

use reef::error::{ReefError, RuntimeError, RuntimeErrorKind, ValueKind};
use reef::expr::{Expr, ExprKind, Value};
use reef::func::{FunctionDecl, NativeFunction, NativeId};
use reef::interpreter::{Interpreter, DEFAULT_FUEL};
use reef::lox::Lox;
use reef::stmt::StmtKind;
use reef::token::{Literal, Token, TokenType};

fn tok(tt: TokenType, lex: &str, line: usize) -> Token {
    Token::new(tt, lex.to_string(), None, line)
}

fn ident(name: &str, line: usize) -> Token {
    tok(TokenType::Identifier, name, line)
}

fn num(n: i64) -> ExprKind {
    ExprKind::Literal { value: Literal::Number(n) }
}

fn text(s: &str) -> ExprKind {
    ExprKind::Literal { value: Literal::Str(s.to_string()) }
}

fn boolean(b: bool) -> ExprKind {
    ExprKind::Literal { value: Literal::Boolean(b) }
}

fn nil_lit() -> ExprKind {
    ExprKind::Literal { value: Literal::Nil }
}

fn bin(l: ExprKind, tt: TokenType, lex: &str, r: ExprKind) -> ExprKind {
    ExprKind::Binary { left: Box::new(l), operator: tok(tt, lex, 1), right: Box::new(r) }
}

fn logic(l: ExprKind, tt: TokenType, lex: &str, r: ExprKind) -> ExprKind {
    ExprKind::Logical { left: Box::new(l), operator: tok(tt, lex, 1), right: Box::new(r) }
}

fn unary(tt: TokenType, lex: &str, r: ExprKind) -> ExprKind {
    ExprKind::Unary { operator: tok(tt, lex, 1), right: Box::new(r) }
}

fn group(e: ExprKind) -> ExprKind {
    ExprKind::Grouping { expression: Box::new(e) }
}

fn var(name: &str) -> ExprKind {
    ExprKind::Variable { name: ident(name, 1) }
}

fn var_at(name: &str, line: usize) -> ExprKind {
    ExprKind::Variable { name: ident(name, line) }
}

fn assign(name: &str, e: ExprKind) -> ExprKind {
    ExprKind::Assign { name: ident(name, 1), value: Box::new(e) }
}

fn call(callee: ExprKind, args: Vec<ExprKind>) -> ExprKind {
    ExprKind::Call {
        callee: Box::new(callee),
        token: tok(TokenType::RightParen, ")", 1),
        arguments: args,
    }
}

fn expr_stmt(e: ExprKind) -> StmtKind {
    StmtKind::Expression { expression: e }
}

fn var_stmt(name: &str, init: ExprKind) -> StmtKind {
    StmtKind::Var { name: ident(name, 1), initializer: Some(init) }
}

fn block(stmts: Vec<StmtKind>) -> StmtKind {
    StmtKind::Block { statements: stmts }
}

fn fun_stmt(name: &str, params: Vec<&str>, body: Vec<StmtKind>) -> StmtKind {
    let parameters = params.into_iter().map(|p| ident(p, 1)).collect();
    StmtKind::Function {
        decl: Rc::new(FunctionDecl { name: ident(name, 1), parameters, body }),
    }
}

fn ret(e: Option<ExprKind>) -> StmtKind {
    StmtKind::Return { keyword: tok(TokenType::Return, "return", 1), value: e }
}

fn while_stmt(cond: ExprKind, body: StmtKind) -> StmtKind {
    StmtKind::While { condition: cond, body: Box::new(body) }
}

fn if_stmt(cond: ExprKind, then_b: StmtKind, else_b: Option<StmtKind>) -> StmtKind {
    StmtKind::If {
        condition: cond,
        then_branch: Box::new(then_b),
        else_branch: else_b.map(Box::new),
    }
}

fn clone_fun_stmt(s: &StmtKind) -> StmtKind {
    match s {
        StmtKind::Function { decl } => StmtKind::Function { decl: Rc::clone(decl) },
        _ => panic!("only function statements are duplicated in these tests"),
    }
}

fn expect_num(v: &Value) -> i64 {
    match v {
        Value::Number(n) => *n,
        other => panic!("expected a number, got {:?}", other),
    }
}

fn expect_str(v: &Value) -> String {
    match v {
        Value::Str(s) => s.clone(),
        other => panic!("expected a string, got {:?}", other),
    }
}

fn expect_bool(v: &Value) -> bool {
    match v {
        Value::Boolean(b) => *b,
        other => panic!("expected a boolean, got {:?}", other),
    }
}

fn eval_ok(e: &ExprKind) -> Value {
    match Interpreter::eval_expression(e) {
        Ok(v) => v,
        Err(err) => panic!("expected a value, got {:?}", err),
    }
}

fn eval_runtime_err(e: &ExprKind) -> RuntimeError {
    match Interpreter::eval_expression(e) {
        Ok(v) => panic!("expected an error, got {:?}", v),
        Err(ReefError::RuntimeError(err)) => err,
        Err(other) => panic!("expected a runtime error, got {:?}", other),
    }
}

fn run_program(stmts: &Vec<StmtKind>) -> Interpreter {
    let mut interp = Interpreter::new();
    if let Err(e) = interp.execute(stmts, DEFAULT_FUEL) {
        panic!("program failed: {:?}", e);
    }
    interp
}

fn global(interp: &Interpreter, name: &str) -> Value {
    match interp.lookup_global(&ident(name, 1)) {
        Ok(v) => v,
        Err(e) => panic!("global {} missing: {:?}", name, e),
    }
}

#[test]
fn test_output() {
    assert_eq!(1, 1)
}

#[test]
fn arithmetic_matches_integer_math() {
    let e = bin(num(1), TokenType::Plus, "+", bin(num(2), TokenType::Star, "*", num(3)));
    assert_eq!(expect_num(&eval_ok(&e)), 7);
    let d = bin(num(10), TokenType::Minus, "-", num(4));
    assert_eq!(expect_num(&eval_ok(&d)), 6);
    let q = bin(num(7), TokenType::Slash, "/", num(2));
    assert_eq!(expect_num(&eval_ok(&q)), 3);
}

#[test]
fn grouping_and_unary() {
    let e = unary(TokenType::Minus, "-", group(bin(num(2), TokenType::Plus, "+", num(3))));
    assert_eq!(expect_num(&eval_ok(&e)), -5);
    assert_eq!(expect_bool(&eval_ok(&unary(TokenType::Bang, "!", boolean(true)))), false);
    assert_eq!(expect_bool(&eval_ok(&unary(TokenType::Bang, "!", nil_lit()))), true);
    assert_eq!(expect_bool(&eval_ok(&unary(TokenType::Bang, "!", num(0)))), false);
}

#[test]
fn division_by_zero_is_an_error() {
    let e = bin(num(1), TokenType::Slash, "/", num(0));
    let err = eval_runtime_err(&e);
    assert!(matches!(err.kind, RuntimeErrorKind::DivisionByZero));
    assert_eq!(err.line, 1);
}

#[test]
fn string_concatenation() {
    let e = bin(text("a"), TokenType::Plus, "+", text("b"));
    assert_eq!(expect_str(&eval_ok(&e)), "ab");
}

#[test]
fn concat_with_number_is_type_mismatch() {
    let e = bin(text("a"), TokenType::Plus, "+", num(1));
    let err = eval_runtime_err(&e);
    match err.kind {
        RuntimeErrorKind::TypeMismatch { operator, found } => {
            assert_eq!(operator, "+");
            assert_eq!(found, ValueKind::Number);
        }
        other => panic!("expected a type mismatch, got {:?}", other),
    }
}

#[test]
fn comparisons_and_equality() {
    assert!(expect_bool(&eval_ok(&bin(num(1), TokenType::Less, "<", num(2)))));
    assert!(expect_bool(&eval_ok(&bin(num(2), TokenType::LessEqual, "<=", num(2)))));
    assert!(!expect_bool(&eval_ok(&bin(num(1), TokenType::Greater, ">", num(2)))));
    assert!(expect_bool(&eval_ok(&bin(num(3), TokenType::GreaterEqual, ">=", num(3)))));
    assert!(expect_bool(&eval_ok(&bin(text("a"), TokenType::EqualEqual, "==", text("a")))));
    assert!(!expect_bool(&eval_ok(&bin(num(1), TokenType::EqualEqual, "==", text("1")))));
    assert!(expect_bool(&eval_ok(&bin(nil_lit(), TokenType::EqualEqual, "==", nil_lit()))));
    assert!(expect_bool(&eval_ok(&bin(num(1), TokenType::BangEqual, "!=", num(2)))));
    let cmp_err = eval_runtime_err(&bin(text("a"), TokenType::Less, "<", num(1)));
    assert!(matches!(cmp_err.kind, RuntimeErrorKind::TypeMismatch { .. }));
}

#[test]
fn shadowing_inner_scope_wins_and_outer_survives() {
    let stmts = vec![
        var_stmt("x", num(1)),
        var_stmt("probe", num(0)),
        block(vec![
            var_stmt("x", num(2)),
            expr_stmt(assign("probe", var("x"))),
        ]),
    ];
    let interp = run_program(&stmts);
    assert_eq!(expect_num(&global(&interp, "probe")), 2);
    assert_eq!(expect_num(&global(&interp, "x")), 1);
}

#[test]
fn assignment_through_shadow_chain_mutates_outer() {
    let stmts = vec![
        var_stmt("x", num(1)),
        block(vec![expr_stmt(assign("x", num(5)))]),
    ];
    let interp = run_program(&stmts);
    assert_eq!(expect_num(&global(&interp, "x")), 5);
}

#[test]
fn block_locals_do_not_escape() {
    let stmts = vec![block(vec![var_stmt("y", num(1))])];
    let interp = run_program(&stmts);
    match interp.lookup_global(&ident("y", 1)) {
        Ok(v) => panic!("y escaped its block: {:?}", v),
        Err(e) => assert!(matches!(e.kind, RuntimeErrorKind::UndefinedVariable { .. })),
    }
}

#[test]
fn redeclaring_in_one_scope_rebinds() {
    let stmts = vec![var_stmt("x", num(1)), var_stmt("x", num(2))];
    let interp = run_program(&stmts);
    assert_eq!(expect_num(&global(&interp, "x")), 2);
}

#[test]
fn var_without_initializer_is_nil() {
    let stmts = vec![StmtKind::Var { name: ident("x", 1), initializer: None }];
    let interp = run_program(&stmts);
    assert!(matches!(global(&interp, "x"), Value::Nil));
}

#[test]
fn undefined_variable_read_names_identifier_and_line() {
    let err = eval_runtime_err(&var_at("missing", 7));
    match err.kind {
        RuntimeErrorKind::UndefinedVariable { name } => assert_eq!(name, "missing"),
        other => panic!("expected undefined variable, got {:?}", other),
    }
    assert_eq!(err.line, 7);
}

#[test]
fn undefined_variable_assignment_fails() {
    let err = eval_runtime_err(&ExprKind::Assign {
        name: ident("ghostly", 3),
        value: Box::new(num(1)),
    });
    match err.kind {
        RuntimeErrorKind::UndefinedVariable { name } => assert_eq!(name, "ghostly"),
        other => panic!("expected undefined variable, got {:?}", other),
    }
    assert_eq!(err.line, 3);
}

#[test]
fn closures_capture_defining_scope() {
    // makeCounter returns a closure over its own i; each call to makeCounter
    // makes a fresh counter, while one closure keeps its counter across calls.
    let make_counter = fun_stmt(
        "makeCounter",
        vec![],
        vec![
            var_stmt("i", num(0)),
            fun_stmt(
                "count",
                vec![],
                vec![
                    expr_stmt(assign("i", bin(var("i"), TokenType::Plus, "+", num(1)))),
                    ret(Some(var("i"))),
                ],
            ),
            ret(Some(var("count"))),
        ],
    );
    let stmts = vec![
        make_counter,
        var_stmt("c", call(var("makeCounter"), vec![])),
        var_stmt("a1", call(var("c"), vec![])),
        var_stmt("a2", call(var("c"), vec![])),
        var_stmt("d", call(var("makeCounter"), vec![])),
        var_stmt("b1", call(var("d"), vec![])),
        var_stmt("a3", call(var("c"), vec![])),
    ];
    let interp = run_program(&stmts);
    assert_eq!(expect_num(&global(&interp, "a1")), 1);
    assert_eq!(expect_num(&global(&interp, "a2")), 2);
    assert_eq!(expect_num(&global(&interp, "b1")), 1);
    assert_eq!(expect_num(&global(&interp, "a3")), 3);
}

#[test]
fn functions_are_first_class() {
    let stmts = vec![
        fun_stmt("f", vec!["x"], vec![ret(Some(bin(var("x"), TokenType::Star, "*", num(2))))]),
        var_stmt("g", var("f")),
        var_stmt("r", call(var("g"), vec![num(21)])),
    ];
    let interp = run_program(&stmts);
    assert_eq!(expect_num(&global(&interp, "r")), 42);
}

#[test]
fn callables_compare_unequal() {
    let stmts = vec![
        fun_stmt("f", vec![], vec![]),
        var_stmt("r", bin(var("f"), TokenType::EqualEqual, "==", var("f"))),
    ];
    let interp = run_program(&stmts);
    assert_eq!(expect_bool(&global(&interp, "r")), false);
}

#[test]
fn and_short_circuits_without_evaluating_right() {
    let stmts = vec![
        var_stmt("called", boolean(false)),
        var_stmt("r", logic(boolean(false), TokenType::And, "and", assign("called", boolean(true)))),
    ];
    let interp = run_program(&stmts);
    assert_eq!(expect_bool(&global(&interp, "called")), false);
    assert_eq!(expect_bool(&global(&interp, "r")), false);
}

#[test]
fn or_short_circuits_without_evaluating_right() {
    let stmts = vec![
        var_stmt("called", boolean(false)),
        var_stmt("r", logic(boolean(true), TokenType::Or, "or", assign("called", boolean(true)))),
    ];
    let interp = run_program(&stmts);
    assert_eq!(expect_bool(&global(&interp, "called")), false);
    assert_eq!(expect_bool(&global(&interp, "r")), true);
}

#[test]
fn logical_operators_return_operand_values() {
    let interp = run_program(&vec![
        var_stmt("a", logic(nil_lit(), TokenType::Or, "or", text("x"))),
        var_stmt("b", logic(num(1), TokenType::And, "and", num(2))),
    ]);
    assert_eq!(expect_str(&global(&interp, "a")), "x");
    assert_eq!(expect_num(&global(&interp, "b")), 2);
}

#[test]
fn arity_mismatch_reports_expected_and_actual() {
    let f = fun_stmt("f", vec!["a", "b"], vec![ret(Some(var("a")))]);
    for (args, actual) in [(vec![num(1)], 1usize), (vec![num(1), num(2), num(3)], 3usize)] {
        let stmts = vec![clone_fun_stmt(&f), expr_stmt(call(var("f"), args))];
        let mut interp = Interpreter::new();
        match interp.execute(&stmts, DEFAULT_FUEL) {
            Ok(()) => panic!("expected an arity mismatch"),
            Err(e) => match e.kind {
                RuntimeErrorKind::ArityMismatch { expected, actual: got } => {
                    assert_eq!(expected, 2);
                    assert_eq!(got, actual);
                }
                other => panic!("expected arity mismatch, got {:?}", other),
            },
        }
    }
}

#[test]
fn matching_arity_calls_succeed() {
    let stmts = vec![
        fun_stmt("f", vec!["a", "b"], vec![ret(Some(bin(var("a"), TokenType::Plus, "+", var("b"))))]),
        var_stmt("r", call(var("f"), vec![num(2), num(3)])),
    ];
    let interp = run_program(&stmts);
    assert_eq!(expect_num(&global(&interp, "r")), 5);
}

#[test]
fn recursive_factorial() {
    let fact = fun_stmt(
        "fact",
        vec!["n"],
        vec![
            if_stmt(
                bin(var("n"), TokenType::LessEqual, "<=", num(1)),
                ret(Some(num(1))),
                None,
            ),
            ret(Some(bin(
                var("n"),
                TokenType::Star,
                "*",
                call(var("fact"), vec![bin(var("n"), TokenType::Minus, "-", num(1))]),
            ))),
        ],
    );
    let stmts = vec![fact, var_stmt("r", call(var("fact"), vec![num(6)]))];
    let interp = run_program(&stmts);
    assert_eq!(expect_num(&global(&interp, "r")), 720);
}

#[test]
fn runaway_recursion_fails_gracefully() {
    let looper = fun_stmt("looper", vec![], vec![ret(Some(call(var("looper"), vec![])))]);
    let stmts = vec![looper, expr_stmt(call(var("looper"), vec![]))];
    let mut interp = Interpreter::new();
    match interp.execute(&stmts, 10_000) {
        Ok(()) => panic!("expected the step budget to run out"),
        Err(e) => assert!(matches!(e.kind, RuntimeErrorKind::RecursionLimit)),
    }
}

#[test]
fn zero_fuel_reports_recursion_limit() {
    let mut interp = Interpreter::new();
    match interp.execute(&vec![expr_stmt(num(1))], 0) {
        Ok(()) => panic!("expected the step budget to run out"),
        Err(e) => assert!(matches!(e.kind, RuntimeErrorKind::RecursionLimit)),
    }
}

#[test]
fn pure_expression_reevaluates_identically() {
    let e = bin(num(2), TokenType::Star, "*", bin(num(3), TokenType::Plus, "+", num(4)));
    let mut interp = Interpreter::new();
    let first = interp.evaluate(0, &e, DEFAULT_FUEL).unwrap();
    let second = interp.evaluate(0, &e, DEFAULT_FUEL).unwrap();
    assert_eq!(expect_num(&first), 14);
    assert_eq!(expect_num(&second), 14);
}

#[test]
fn native_functions_dispatch_and_check_types() {
    let mut interp = Interpreter::new();
    interp.register_native("abs", NativeFunction { arity: 1, id: NativeId::Abs });
    interp.register_native("max", NativeFunction { arity: 2, id: NativeId::Max });
    let stmts = vec![
        var_stmt("a", call(var("abs"), vec![unary(TokenType::Minus, "-", num(5))])),
        var_stmt("m", call(var("max"), vec![num(2), num(9)])),
    ];
    interp.execute(&stmts, DEFAULT_FUEL).unwrap();
    assert_eq!(expect_num(&global(&interp, "a")), 5);
    assert_eq!(expect_num(&global(&interp, "m")), 9);

    let mut interp2 = Interpreter::new();
    interp2.register_native("abs", NativeFunction { arity: 1, id: NativeId::Abs });
    match interp2.execute(&vec![expr_stmt(call(var("abs"), vec![text("x")]))], DEFAULT_FUEL) {
        Ok(()) => panic!("expected a type mismatch"),
        Err(e) => assert!(matches!(e.kind, RuntimeErrorKind::TypeMismatch { .. })),
    }
}

#[test]
fn native_arity_is_checked() {
    let mut interp = Interpreter::new();
    interp.register_native("max", NativeFunction { arity: 2, id: NativeId::Max });
    match interp.execute(&vec![expr_stmt(call(var("max"), vec![num(1)]))], DEFAULT_FUEL) {
        Ok(()) => panic!("expected an arity mismatch"),
        Err(e) => match e.kind {
            RuntimeErrorKind::ArityMismatch { expected, actual } => {
                assert_eq!(expected, 2);
                assert_eq!(actual, 1);
            }
            other => panic!("expected arity mismatch, got {:?}", other),
        },
    }
}

#[test]
fn calling_a_non_callable_fails() {
    let err = eval_runtime_err(&call(num(5), vec![num(1)]));
    match err.kind {
        RuntimeErrorKind::NotCallable { found } => assert_eq!(found, ValueKind::Number),
        other => panic!("expected not-callable, got {:?}", other),
    }
}

#[test]
fn return_outside_function_is_an_error() {
    let mut interp = Interpreter::new();
    match interp.execute(&vec![ret(Some(num(1)))], DEFAULT_FUEL) {
        Ok(()) => panic!("expected an error"),
        Err(e) => assert!(matches!(e.kind, RuntimeErrorKind::ReturnOutsideFunction)),
    }
}

#[test]
fn while_loop_runs_until_falsy() {
    let stmts = vec![
        var_stmt("i", num(0)),
        while_stmt(
            bin(var("i"), TokenType::Less, "<", num(5)),
            expr_stmt(assign("i", bin(var("i"), TokenType::Plus, "+", num(1)))),
        ),
    ];
    let interp = run_program(&stmts);
    assert_eq!(expect_num(&global(&interp, "i")), 5);
}

#[test]
fn if_statement_picks_branches_by_truthiness() {
    let stmts = vec![
        var_stmt("r", num(0)),
        if_stmt(num(0), expr_stmt(assign("r", num(1))), Some(expr_stmt(assign("r", num(2))))),
        var_stmt("s", num(0)),
        if_stmt(nil_lit(), expr_stmt(assign("s", num(1))), Some(expr_stmt(assign("s", num(2))))),
    ];
    let interp = run_program(&stmts);
    // zero is truthy; nil is falsy
    assert_eq!(expect_num(&global(&interp, "r")), 1);
    assert_eq!(expect_num(&global(&interp, "s")), 2);
}

#[test]
fn function_body_without_return_yields_nil() {
    let stmts = vec![
        fun_stmt("f", vec![], vec![var_stmt("local", num(1))]),
        var_stmt("r", call(var("f"), vec![])),
    ];
    let interp = run_program(&stmts);
    assert!(matches!(global(&interp, "r"), Value::Nil));
}

#[test]
fn lox_driver_keeps_globals_across_runs() {
    let mut lox = Lox::new();
    lox.run(&vec![var_stmt("x", num(1))]).unwrap();
    lox.run(&vec![var_stmt("y", bin(var("x"), TokenType::Plus, "+", num(2)))]).unwrap();
    assert_eq!(expect_num(&global(&lox.interpreter, "y")), 3);
}

#[test]
fn failed_run_keeps_completed_bindings() {
    let mut lox = Lox::new();
    let r = lox.run(&vec![var_stmt("x", num(1)), expr_stmt(var("missing"))]);
    assert!(r.is_err());
    assert_eq!(expect_num(&global(&lox.interpreter, "x")), 1);
}

#[test]
fn expr_evaluate_entry_point() {
    let e = bin(num(20), TokenType::Plus, "+", num(22));
    match Expr::evaluate(&e) {
        Ok(v) => assert_eq!(expect_num(&v), 42),
        Err(err) => panic!("unexpected error: {:?}", err),
    }
}
