use vstd::prelude::*;

verus! {

/// Lexical category of a token, as produced by the scanner.
#[derive(Debug, Clone, Copy, PartialEq, Eq, Structural)]
pub enum TokenType {
    LeftParen,
    RightParen,
    LeftBrace,
    RightBrace,
    Comma,
    Dot,
    Minus,
    Plus,
    Semicolon,
    Slash,
    Star,
    Bang,
    BangEqual,
    Equal,
    EqualEqual,
    Greater,
    GreaterEqual,
    Less,
    LessEqual,
    Identifier,
    Str,
    Number,
    And,
    Class,
    Else,
    False,
    Fun,
    For,
    If,
    Nil,
    Or,
    Print,
    Return,
    Super,
    This,
    True,
    Var,
    While,
    Eof,
}

/// A literal constant carried by a token. Numbers are signed 64-bit
/// integers: the language's number type.
#[derive(Debug)]
pub enum Literal {
    Str(String),
    Number(i64),
    Boolean(bool),
    Nil,
}

/// A token, produced upstream and carried through the syntax tree for
/// diagnostics. Never mutated after creation.
#[derive(Debug)]
pub struct Token {
    pub token_type: TokenType,
    pub lexeme: String,
    pub object: Option<Literal>,
    pub line: usize,
}

impl Token {
    pub fn new(token_type: TokenType, lexeme: String, object: Option<Literal>, line: usize) -> (t: Token)
        ensures
            t == (Token { token_type, lexeme, object, line }),
    {
        Token { token_type, lexeme, object, line }
    }
}

} // verus!
