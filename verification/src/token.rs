//! Tokens produced by the lexer: a closed set of kinds (keywords, literals,
//! identifiers, punctuation, operators and an end-of-stream marker), each
//! carrying the line and column where it started.

use vstd::prelude::*;

verus! {

/// The kind of a token. Literal and identifier kinds carry their value;
/// every other kind is a bare marker.
#[derive(Debug, Clone, PartialEq)]
pub enum TokenKind {
    Let,
    Function,
    Return,
    Void,
    Const,
    Print,
    If,
    Else,
    For,
    While,
    In,
    Any,
    Break,
    Continue,
    Import,
    Export,
    Struct,
    Enum,
    Try,
    Catch,
    Throw,
    From,
    As,
    NumberType,
    StringType,
    BooleanType,
    Identifier(String),
    NumberLiteral(i32),
    StringLiteral(String),
    BooleanLiteral(bool),
    Plus,
    Minus,
    Star,
    Slash,
    Percent,
    Equal,
    Colon,
    Semicolon,
    Comma,
    Dot,
    LeftParen,
    RightParen,
    LeftBrace,
    RightBrace,
    LeftBracket,
    RightBracket,
    EqualEqual,
    BangEqual,
    Greater,
    GreaterEqual,
    Less,
    LessEqual,
    AmpersandAmpersand,
    PipePipe,
    Bang,
    Ampersand,
    Mut,
    Eof,
}

/// Mathematical model of a token kind: string payloads are sequences of
/// characters rather than heap-allocated strings.
pub enum TokenKindV {
    Let,
    Function,
    Return,
    Void,
    Const,
    Print,
    If,
    Else,
    For,
    While,
    In,
    Any,
    Break,
    Continue,
    Import,
    Export,
    Struct,
    Enum,
    Try,
    Catch,
    Throw,
    From,
    As,
    NumberType,
    StringType,
    BooleanType,
    Identifier(Seq<char>),
    NumberLiteral(i32),
    StringLiteral(Seq<char>),
    BooleanLiteral(bool),
    Plus,
    Minus,
    Star,
    Slash,
    Percent,
    Equal,
    Colon,
    Semicolon,
    Comma,
    Dot,
    LeftParen,
    RightParen,
    LeftBrace,
    RightBrace,
    LeftBracket,
    RightBracket,
    EqualEqual,
    BangEqual,
    Greater,
    GreaterEqual,
    Less,
    LessEqual,
    AmpersandAmpersand,
    PipePipe,
    Bang,
    Ampersand,
    Mut,
    Eof,
}

impl View for TokenKind {
    type V = TokenKindV;

    open spec fn view(&self) -> TokenKindV {
        match self {
            TokenKind::Let => TokenKindV::Let,
            TokenKind::Function => TokenKindV::Function,
            TokenKind::Return => TokenKindV::Return,
            TokenKind::Void => TokenKindV::Void,
            TokenKind::Const => TokenKindV::Const,
            TokenKind::Print => TokenKindV::Print,
            TokenKind::If => TokenKindV::If,
            TokenKind::Else => TokenKindV::Else,
            TokenKind::For => TokenKindV::For,
            TokenKind::While => TokenKindV::While,
            TokenKind::In => TokenKindV::In,
            TokenKind::Any => TokenKindV::Any,
            TokenKind::Break => TokenKindV::Break,
            TokenKind::Continue => TokenKindV::Continue,
            TokenKind::Import => TokenKindV::Import,
            TokenKind::Export => TokenKindV::Export,
            TokenKind::Struct => TokenKindV::Struct,
            TokenKind::Enum => TokenKindV::Enum,
            TokenKind::Try => TokenKindV::Try,
            TokenKind::Catch => TokenKindV::Catch,
            TokenKind::Throw => TokenKindV::Throw,
            TokenKind::From => TokenKindV::From,
            TokenKind::As => TokenKindV::As,
            TokenKind::NumberType => TokenKindV::NumberType,
            TokenKind::StringType => TokenKindV::StringType,
            TokenKind::BooleanType => TokenKindV::BooleanType,
            TokenKind::Identifier(s) => TokenKindV::Identifier(s@),
            TokenKind::NumberLiteral(n) => TokenKindV::NumberLiteral(*n),
            TokenKind::StringLiteral(s) => TokenKindV::StringLiteral(s@),
            TokenKind::BooleanLiteral(b) => TokenKindV::BooleanLiteral(*b),
            TokenKind::Plus => TokenKindV::Plus,
            TokenKind::Minus => TokenKindV::Minus,
            TokenKind::Star => TokenKindV::Star,
            TokenKind::Slash => TokenKindV::Slash,
            TokenKind::Percent => TokenKindV::Percent,
            TokenKind::Equal => TokenKindV::Equal,
            TokenKind::Colon => TokenKindV::Colon,
            TokenKind::Semicolon => TokenKindV::Semicolon,
            TokenKind::Comma => TokenKindV::Comma,
            TokenKind::Dot => TokenKindV::Dot,
            TokenKind::LeftParen => TokenKindV::LeftParen,
            TokenKind::RightParen => TokenKindV::RightParen,
            TokenKind::LeftBrace => TokenKindV::LeftBrace,
            TokenKind::RightBrace => TokenKindV::RightBrace,
            TokenKind::LeftBracket => TokenKindV::LeftBracket,
            TokenKind::RightBracket => TokenKindV::RightBracket,
            TokenKind::EqualEqual => TokenKindV::EqualEqual,
            TokenKind::BangEqual => TokenKindV::BangEqual,
            TokenKind::Greater => TokenKindV::Greater,
            TokenKind::GreaterEqual => TokenKindV::GreaterEqual,
            TokenKind::Less => TokenKindV::Less,
            TokenKind::LessEqual => TokenKindV::LessEqual,
            TokenKind::AmpersandAmpersand => TokenKindV::AmpersandAmpersand,
            TokenKind::PipePipe => TokenKindV::PipePipe,
            TokenKind::Bang => TokenKindV::Bang,
            TokenKind::Ampersand => TokenKindV::Ampersand,
            TokenKind::Mut => TokenKindV::Mut,
            TokenKind::Eof => TokenKindV::Eof,
        }
    }
}

/// A token together with the line and column (both starting at 1) of its
/// first character in the source text.
#[derive(Debug, Clone)]
pub struct Token {
    pub kind: TokenKind,
    pub line: usize,
    pub column: usize,
}

/// Mathematical model of a token.
pub struct TokenV {
    pub kind: TokenKindV,
    pub line: nat,
    pub column: nat,
}

impl View for Token {
    type V = TokenV;

    open spec fn view(&self) -> TokenV {
        TokenV { kind: self.kind@, line: self.line as nat, column: self.column as nat }
    }
}

impl Token {
    /// Packs a kind and a position into a token.
    pub fn new(kind: TokenKind, line: usize, column: usize) -> (t: Token)
        ensures
            t.kind == kind,
            t.line == line,
            t.column == column,
    {
        Token { kind, line, column }
    }
}

} // verus!
