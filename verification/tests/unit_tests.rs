use reef::environment::Environment;
use reef::error::{ErrorLocation, ReefError, RuntimeErrorKind, ValueKind};
use reef::expr::Value;
use reef::token::{Token, TokenType};

fn ident(name: &str, line: usize) -> Token {
    Token::new(TokenType::Identifier, name.to_string(), None, line)
}

#[test]
fn value_accessors_return_the_underlying_data() {
    assert_eq!(Value::Number(3).as_number().unwrap(), 3);
    assert_eq!(Value::Str("hi".to_string()).as_string().unwrap(), "hi");
    assert_eq!(Value::Boolean(true).as_boolean().unwrap(), true);
}

#[test]
fn value_accessor_errors_name_expected_and_observed_kind() {
    match Value::Str("x".to_string()).as_number() {
        Err(ReefError::RuntimeError(re)) => {
            assert_eq!(re.line, 0);
            match re.kind {
                RuntimeErrorKind::TypeMismatch { operator, found } => {
                    assert_eq!(operator, "number");
                    assert_eq!(found, ValueKind::Str);
                }
                other => panic!("expected a type mismatch, got {:?}", other),
            }
        }
        other => panic!("expected a runtime error, got {:?}", other),
    }
    match Value::Number(1).as_string() {
        Err(ReefError::RuntimeError(re)) => match re.kind {
            RuntimeErrorKind::TypeMismatch { operator, found } => {
                assert_eq!(operator, "string");
                assert_eq!(found, ValueKind::Number);
            }
            other => panic!("expected a type mismatch, got {:?}", other),
        },
        other => panic!("expected a runtime error, got {:?}", other),
    }
    match Value::Nil.as_boolean() {
        Err(ReefError::RuntimeError(re)) => match re.kind {
            RuntimeErrorKind::TypeMismatch { operator, found } => {
                assert_eq!(operator, "boolean");
                assert_eq!(found, ValueKind::Nil);
            }
            other => panic!("expected a type mismatch, got {:?}", other),
        },
        other => panic!("expected a runtime error, got {:?}", other),
    }
}

#[test]
fn truthiness_follows_the_language_rule() {
    assert!(!Value::Nil.is_truthy());
    assert!(!Value::Boolean(false).is_truthy());
    assert!(Value::Boolean(true).is_truthy());
    assert!(Value::Number(0).is_truthy());
    assert!(Value::Str(String::new()).is_truthy());
}

#[test]
fn value_equality_is_per_variant() {
    assert!(Value::Number(1).equals(&Value::Number(1)));
    assert!(!Value::Number(1).equals(&Value::Number(2)));
    assert!(Value::Str("a".to_string()).equals(&Value::Str("a".to_string())));
    assert!(!Value::Str("1".to_string()).equals(&Value::Number(1)));
    assert!(Value::Nil.equals(&Value::Nil));
    assert!(!Value::Nil.equals(&Value::Boolean(false)));
}

#[test]
fn environment_defines_and_reads_in_one_scope() {
    let mut env = Environment::new();
    env.define(0, "x".to_string(), Value::Number(1)).unwrap();
    let v = env.get(0, &ident("x", 1)).unwrap();
    assert_eq!(v.as_number().unwrap(), 1);
}

#[test]
fn environment_redefine_rebinds() {
    let mut env = Environment::new();
    env.define(0, "x".to_string(), Value::Number(1)).unwrap();
    env.update_values(0, "x".to_string(), Value::Number(2)).unwrap();
    assert_eq!(env.get(0, &ident("x", 1)).unwrap().as_number().unwrap(), 2);
}

#[test]
fn environment_assign_walks_the_chain() {
    let mut env = Environment::new();
    env.define(0, "x".to_string(), Value::Number(1)).unwrap();
    let inner = env.push_scope(0);
    env.assign(inner, &ident("x", 1), Value::Number(5)).unwrap();
    assert_eq!(env.get(0, &ident("x", 1)).unwrap().as_number().unwrap(), 5);
}

#[test]
fn environment_assign_to_missing_name_fails() {
    let mut env = Environment::new();
    let err = env.assign(0, &ident("nope", 4), Value::Number(1)).unwrap_err();
    match err.kind {
        RuntimeErrorKind::UndefinedVariable { name } => assert_eq!(name, "nope"),
        other => panic!("expected undefined variable, got {:?}", other),
    }
    assert_eq!(err.line, 4);
}

#[test]
fn environment_shadowing_reads_innermost() {
    let mut env = Environment::new();
    env.define(0, "x".to_string(), Value::Number(1)).unwrap();
    let inner = env.push_scope(0);
    env.define(inner, "x".to_string(), Value::Number(2)).unwrap();
    assert_eq!(env.get(inner, &ident("x", 1)).unwrap().as_number().unwrap(), 2);
    assert_eq!(env.get(0, &ident("x", 1)).unwrap().as_number().unwrap(), 1);
}

#[test]
fn reef_error_carries_line_and_message() {
    match ReefError::reef_error(3, "msg") {
        ReefError::ParseError { line, location, message } => {
            assert_eq!(line, 3);
            assert!(matches!(location, ErrorLocation::General));
            assert_eq!(message, "msg");
        }
        other => panic!("expected a parse error, got {:?}", other),
    }
}

#[test]
fn reef_error_at_line_points_at_the_token() {
    let t = Token::new(TokenType::Identifier, "abc".to_string(), None, 9);
    match ReefError::reef_error_at_line(&t, "bad") {
        ReefError::ParseError { line, location, message } => {
            assert_eq!(line, 9);
            match location {
                ErrorLocation::AtToken(lx) => assert_eq!(lx, "abc"),
                other => panic!("expected a token location, got {:?}", other),
            }
            assert_eq!(message, "bad");
        }
        other => panic!("expected a parse error, got {:?}", other),
    }
    let eof = Token::new(TokenType::Eof, String::new(), None, 10);
    match ReefError::reef_error_at_line(&eof, "end") {
        ReefError::ParseError { location, .. } => {
            assert!(matches!(location, ErrorLocation::AtEnd))
        }
        other => panic!("expected a parse error, got {:?}", other),
    }
}
