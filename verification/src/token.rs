//! Tokens produced by the lexer: their kinds, positions and payloads.
use vstd::prelude::*;

verus! {
/// A point in a source file.
#[derive(Clone, Copy, Debug, PartialEq, Eq, Structural)]
pub struct Position {
    pub line: usize,
    pub char: usize,
}

impl Position {
    pub fn new(line: usize, char: usize) -> (p: Position)
        ensures
            p.line == line,
            p.char == char,
    {
        Position { line, char }
    }
}

/// A span of source text, from `start` to `end`.
#[derive(Clone, Copy, Debug, PartialEq, Eq, Structural)]
pub struct PositionRange {
    pub start: Position,
    pub end: Position,
}

/// The span that starts where `a` starts and ends where `b` ends.
pub open spec fn spec_concat(a: PositionRange, b: PositionRange) -> PositionRange {
    PositionRange { start: a.start, end: b.end }
}

impl PositionRange {
    /// The empty span at the very beginning of a file.
    pub fn zero() -> (r: PositionRange)
        ensures
            r == (PositionRange { start: Position { line: 0, char: 0 }, end: Position { line: 0, char: 0 } }),
    {
        PositionRange { start: Position { line: 0, char: 0 }, end: Position { line: 0, char: 0 } }
    }

    /// The span made of a single position.
    pub fn new(position: Position) -> (r: PositionRange)
        ensures
            r == (PositionRange { start: position, end: position }),
    {
        PositionRange { start: position, end: position }
    }

    /// The span from the start of `start` to the end of `end`.
    pub fn concat(start: &PositionRange, end: &PositionRange) -> (r: PositionRange)
        ensures
            r == spec_concat(*start, *end),
    {
        PositionRange { start: start.start, end: end.end }
    }
}

/// A value together with the span of source it was read from.
#[derive(Debug)]
pub struct Located<T> {
    pub data: T,
    pub position: PositionRange,
}

impl<T> Located<T> {
    pub fn new(data: T, position: PositionRange) -> (r: Located<T>)
        ensures
            r.data == data,
            r.position == position,
    {
        Located { data, position }
    }

    pub fn get_position(&self) -> (r: &PositionRange)
        ensures
            *r == self.position,
    {
        &self.position
    }
}

impl<T> std::ops::Deref for Located<T> {
    type Target = T;

    fn deref(&self) -> (r: &T)
        ensures
            *r == self.data,
    {
        &self.data
    }
}

impl Clone for Located<String> {
    fn clone(&self) -> (r: Located<String>)
        ensures
            r == *self,
    {
        Located { data: self.data.clone(), position: self.position }
    }
}

impl Located<String> {
    /// The text of a located string.
    pub fn as_ref(&self) -> (r: &str)
        ensures
            r@ == self.data@,
    {
        self.data.as_str()
    }
}

/// The kind of a token, without its payload.
///
/// `AnyIdentifier` is a pattern: it is matched by every identifier token.
#[derive(Clone, Copy, Debug, PartialEq, Eq, Structural)]
pub enum TokenKind {
    Identifier,
    IntLiteral,
    DoubleLiteral,
    BoolLiteral,
    CharLiteral,
    StringLiteral,
    AnyIdentifier,
    EOF,
    Semicolon,
    Colon,
    DoubleColon,
    Comma,
    Dot,
    Arrow,
    LeftParen,
    RightParen,
    LeftCurly,
    RightCurly,
    LeftSquare,
    RightSquare,
    Assignment,
    Plus,
    Minus,
    Star,
    Slash,
    Percentage,
    Ampersand,
    Bar,
    Carat,
    Tilda,
    Not,
    Equal,
    NotEqual,
    Less,
    LessEqual,
    Greater,
    GreaterEqual,
    LeftShift,
    RightShift,
    And,
    Or,
    DollarSign,
    AtSign,
    Int,
    Double,
    Bool,
    Char,
    Void,
    Let,
    If,
    Else,
    While,
    For,
    Loop,
    Break,
    Return,
    Result,
    New,
    Delete,
    Fn,
    Extern,
    As,
    Struct,
    Impl,
    Main,
    Scope,
    Require,
    From,
    Putc,
    Getc,
}

/// Whether a token of kind `actual` is matched by the pattern `pattern`: the kinds must agree,
/// except that the pattern `AnyIdentifier` is matched by every identifier.
pub open spec fn kind_matches(actual: TokenKind, pattern: TokenKind) -> bool {
    if pattern == TokenKind::AnyIdentifier {
        actual == TokenKind::Identifier
    } else {
        actual == pattern
    }
}

/// Executable form of [`kind_matches`].
pub fn kinds_match(actual: TokenKind, pattern: TokenKind) -> (r: bool)
    ensures
        r == kind_matches(actual, pattern),
{
    if pattern == TokenKind::AnyIdentifier {
        actual == TokenKind::Identifier
    } else {
        actual == pattern
    }
}

/// The text by which a token kind is shown in messages.
pub open spec fn kind_text(kind: TokenKind) -> Seq<char> {
    match kind {
        TokenKind::Identifier => "identifier"@,
        TokenKind::IntLiteral => "int literal"@,
        TokenKind::DoubleLiteral => "double literal"@,
        TokenKind::BoolLiteral => "bool literal"@,
        TokenKind::CharLiteral => "char literal"@,
        TokenKind::StringLiteral => "string literal"@,
        TokenKind::AnyIdentifier => "identifier"@,
        TokenKind::EOF => "end of file"@,
        TokenKind::Semicolon => ";"@,
        TokenKind::Colon => ":"@,
        TokenKind::DoubleColon => "::"@,
        TokenKind::Comma => ","@,
        TokenKind::Dot => "."@,
        TokenKind::Arrow => "->"@,
        TokenKind::LeftParen => "("@,
        TokenKind::RightParen => ")"@,
        TokenKind::LeftCurly => "{"@,
        TokenKind::RightCurly => "}"@,
        TokenKind::LeftSquare => "["@,
        TokenKind::RightSquare => "]"@,
        TokenKind::Assignment => "="@,
        TokenKind::Plus => "+"@,
        TokenKind::Minus => "-"@,
        TokenKind::Star => "*"@,
        TokenKind::Slash => "/"@,
        TokenKind::Percentage => "%"@,
        TokenKind::Ampersand => "&"@,
        TokenKind::Bar => "|"@,
        TokenKind::Carat => "^"@,
        TokenKind::Tilda => "~"@,
        TokenKind::Not => "!"@,
        TokenKind::Equal => "=="@,
        TokenKind::NotEqual => "!="@,
        TokenKind::Less => "<"@,
        TokenKind::LessEqual => "<="@,
        TokenKind::Greater => ">"@,
        TokenKind::GreaterEqual => ">="@,
        TokenKind::LeftShift => "<<"@,
        TokenKind::RightShift => ">>"@,
        TokenKind::And => "and"@,
        TokenKind::Or => "or"@,
        TokenKind::DollarSign => "$"@,
        TokenKind::AtSign => "@"@,
        TokenKind::Int => "int"@,
        TokenKind::Double => "double"@,
        TokenKind::Bool => "bool"@,
        TokenKind::Char => "char"@,
        TokenKind::Void => "void"@,
        TokenKind::Let => "let"@,
        TokenKind::If => "if"@,
        TokenKind::Else => "else"@,
        TokenKind::While => "while"@,
        TokenKind::For => "for"@,
        TokenKind::Loop => "loop"@,
        TokenKind::Break => "break"@,
        TokenKind::Return => "return"@,
        TokenKind::Result => "result"@,
        TokenKind::New => "new"@,
        TokenKind::Delete => "delete"@,
        TokenKind::Fn => "fn"@,
        TokenKind::Extern => "extern"@,
        TokenKind::As => "as"@,
        TokenKind::Struct => "struct"@,
        TokenKind::Impl => "impl"@,
        TokenKind::Main => "main"@,
        TokenKind::Scope => "scope"@,
        TokenKind::Require => "require"@,
        TokenKind::From => "from"@,
        TokenKind::Putc => "putc"@,
        TokenKind::Getc => "getc"@,
    }
}

impl TokenKind {
    /// The text by which this kind is shown in messages.
    pub fn text(&self) -> (r: &'static str)
        ensures
            r@ == kind_text(*self),
    {
        match self {
            TokenKind::Identifier => "identifier",
            TokenKind::IntLiteral => "int literal",
            TokenKind::DoubleLiteral => "double literal",
            TokenKind::BoolLiteral => "bool literal",
            TokenKind::CharLiteral => "char literal",
            TokenKind::StringLiteral => "string literal",
            TokenKind::AnyIdentifier => "identifier",
            TokenKind::EOF => "end of file",
            TokenKind::Semicolon => ";",
            TokenKind::Colon => ":",
            TokenKind::DoubleColon => "::",
            TokenKind::Comma => ",",
            TokenKind::Dot => ".",
            TokenKind::Arrow => "->",
            TokenKind::LeftParen => "(",
            TokenKind::RightParen => ")",
            TokenKind::LeftCurly => "{",
            TokenKind::RightCurly => "}",
            TokenKind::LeftSquare => "[",
            TokenKind::RightSquare => "]",
            TokenKind::Assignment => "=",
            TokenKind::Plus => "+",
            TokenKind::Minus => "-",
            TokenKind::Star => "*",
            TokenKind::Slash => "/",
            TokenKind::Percentage => "%",
            TokenKind::Ampersand => "&",
            TokenKind::Bar => "|",
            TokenKind::Carat => "^",
            TokenKind::Tilda => "~",
            TokenKind::Not => "!",
            TokenKind::Equal => "==",
            TokenKind::NotEqual => "!=",
            TokenKind::Less => "<",
            TokenKind::LessEqual => "<=",
            TokenKind::Greater => ">",
            TokenKind::GreaterEqual => ">=",
            TokenKind::LeftShift => "<<",
            TokenKind::RightShift => ">>",
            TokenKind::And => "and",
            TokenKind::Or => "or",
            TokenKind::DollarSign => "$",
            TokenKind::AtSign => "@",
            TokenKind::Int => "int",
            TokenKind::Double => "double",
            TokenKind::Bool => "bool",
            TokenKind::Char => "char",
            TokenKind::Void => "void",
            TokenKind::Let => "let",
            TokenKind::If => "if",
            TokenKind::Else => "else",
            TokenKind::While => "while",
            TokenKind::For => "for",
            TokenKind::Loop => "loop",
            TokenKind::Break => "break",
            TokenKind::Return => "return",
            TokenKind::Result => "result",
            TokenKind::New => "new",
            TokenKind::Delete => "delete",
            TokenKind::Fn => "fn",
            TokenKind::Extern => "extern",
            TokenKind::As => "as",
            TokenKind::Struct => "struct",
            TokenKind::Impl => "impl",
            TokenKind::Main => "main",
            TokenKind::Scope => "scope",
            TokenKind::Require => "require",
            TokenKind::From => "from",
            TokenKind::Putc => "putc",
            TokenKind::Getc => "getc",
        }
    }
}

/// The type of a token, with the value of a literal or the name of an identifier.
///
/// A double literal holds the IEEE-754 bits of its value.
#[derive(Debug)]
pub enum TokenType {
    Identifier(String),
    IntLiteral(i64),
    DoubleLiteral(u64),
    BoolLiteral(bool),
    CharLiteral(char),
    StringLiteral(String),
    AnyIdentifier,
    EOF,
    Semicolon,
    Colon,
    DoubleColon,
    Comma,
    Dot,
    Arrow,
    LeftParen,
    RightParen,
    LeftCurly,
    RightCurly,
    LeftSquare,
    RightSquare,
    Assignment,
    Plus,
    Minus,
    Star,
    Slash,
    Percentage,
    Ampersand,
    Bar,
    Carat,
    Tilda,
    Not,
    Equal,
    NotEqual,
    Less,
    LessEqual,
    Greater,
    GreaterEqual,
    LeftShift,
    RightShift,
    And,
    Or,
    DollarSign,
    AtSign,
    Int,
    Double,
    Bool,
    Char,
    Void,
    Let,
    If,
    Else,
    While,
    For,
    Loop,
    Break,
    Return,
    Result,
    New,
    Delete,
    Fn,
    Extern,
    As,
    Struct,
    Impl,
    Main,
    Scope,
    Require,
    From,
    Putc,
    Getc,
}

impl TokenType {
    /// The kind of this token type.
    pub open spec fn spec_kind(&self) -> TokenKind {
        match self {
            TokenType::Identifier(_) => TokenKind::Identifier,
            TokenType::IntLiteral(_) => TokenKind::IntLiteral,
            TokenType::DoubleLiteral(_) => TokenKind::DoubleLiteral,
            TokenType::BoolLiteral(_) => TokenKind::BoolLiteral,
            TokenType::CharLiteral(_) => TokenKind::CharLiteral,
            TokenType::StringLiteral(_) => TokenKind::StringLiteral,
            TokenType::AnyIdentifier => TokenKind::AnyIdentifier,
            TokenType::EOF => TokenKind::EOF,
            TokenType::Semicolon => TokenKind::Semicolon,
            TokenType::Colon => TokenKind::Colon,
            TokenType::DoubleColon => TokenKind::DoubleColon,
            TokenType::Comma => TokenKind::Comma,
            TokenType::Dot => TokenKind::Dot,
            TokenType::Arrow => TokenKind::Arrow,
            TokenType::LeftParen => TokenKind::LeftParen,
            TokenType::RightParen => TokenKind::RightParen,
            TokenType::LeftCurly => TokenKind::LeftCurly,
            TokenType::RightCurly => TokenKind::RightCurly,
            TokenType::LeftSquare => TokenKind::LeftSquare,
            TokenType::RightSquare => TokenKind::RightSquare,
            TokenType::Assignment => TokenKind::Assignment,
            TokenType::Plus => TokenKind::Plus,
            TokenType::Minus => TokenKind::Minus,
            TokenType::Star => TokenKind::Star,
            TokenType::Slash => TokenKind::Slash,
            TokenType::Percentage => TokenKind::Percentage,
            TokenType::Ampersand => TokenKind::Ampersand,
            TokenType::Bar => TokenKind::Bar,
            TokenType::Carat => TokenKind::Carat,
            TokenType::Tilda => TokenKind::Tilda,
            TokenType::Not => TokenKind::Not,
            TokenType::Equal => TokenKind::Equal,
            TokenType::NotEqual => TokenKind::NotEqual,
            TokenType::Less => TokenKind::Less,
            TokenType::LessEqual => TokenKind::LessEqual,
            TokenType::Greater => TokenKind::Greater,
            TokenType::GreaterEqual => TokenKind::GreaterEqual,
            TokenType::LeftShift => TokenKind::LeftShift,
            TokenType::RightShift => TokenKind::RightShift,
            TokenType::And => TokenKind::And,
            TokenType::Or => TokenKind::Or,
            TokenType::DollarSign => TokenKind::DollarSign,
            TokenType::AtSign => TokenKind::AtSign,
            TokenType::Int => TokenKind::Int,
            TokenType::Double => TokenKind::Double,
            TokenType::Bool => TokenKind::Bool,
            TokenType::Char => TokenKind::Char,
            TokenType::Void => TokenKind::Void,
            TokenType::Let => TokenKind::Let,
            TokenType::If => TokenKind::If,
            TokenType::Else => TokenKind::Else,
            TokenType::While => TokenKind::While,
            TokenType::For => TokenKind::For,
            TokenType::Loop => TokenKind::Loop,
            TokenType::Break => TokenKind::Break,
            TokenType::Return => TokenKind::Return,
            TokenType::Result => TokenKind::Result,
            TokenType::New => TokenKind::New,
            TokenType::Delete => TokenKind::Delete,
            TokenType::Fn => TokenKind::Fn,
            TokenType::Extern => TokenKind::Extern,
            TokenType::As => TokenKind::As,
            TokenType::Struct => TokenKind::Struct,
            TokenType::Impl => TokenKind::Impl,
            TokenType::Main => TokenKind::Main,
            TokenType::Scope => TokenKind::Scope,
            TokenType::Require => TokenKind::Require,
            TokenType::From => TokenKind::From,
            TokenType::Putc => TokenKind::Putc,
            TokenType::Getc => TokenKind::Getc,
        }
    }

    /// Only an identifier has the kind `Identifier`.
    pub proof fn lemma_identifier_kind(&self)
        ensures
            self.spec_kind() == TokenKind::Identifier <==> self is Identifier,
    {
    }

    /// The kind of this token type.
    pub fn kind(&self) -> (k: TokenKind)
        ensures
            k == self.spec_kind(),
    {
        match self {
            TokenType::Identifier(_) => TokenKind::Identifier,
            TokenType::IntLiteral(_) => TokenKind::IntLiteral,
            TokenType::DoubleLiteral(_) => TokenKind::DoubleLiteral,
            TokenType::BoolLiteral(_) => TokenKind::BoolLiteral,
            TokenType::CharLiteral(_) => TokenKind::CharLiteral,
            TokenType::StringLiteral(_) => TokenKind::StringLiteral,
            TokenType::AnyIdentifier => TokenKind::AnyIdentifier,
            TokenType::EOF => TokenKind::EOF,
            TokenType::Semicolon => TokenKind::Semicolon,
            TokenType::Colon => TokenKind::Colon,
            TokenType::DoubleColon => TokenKind::DoubleColon,
            TokenType::Comma => TokenKind::Comma,
            TokenType::Dot => TokenKind::Dot,
            TokenType::Arrow => TokenKind::Arrow,
            TokenType::LeftParen => TokenKind::LeftParen,
            TokenType::RightParen => TokenKind::RightParen,
            TokenType::LeftCurly => TokenKind::LeftCurly,
            TokenType::RightCurly => TokenKind::RightCurly,
            TokenType::LeftSquare => TokenKind::LeftSquare,
            TokenType::RightSquare => TokenKind::RightSquare,
            TokenType::Assignment => TokenKind::Assignment,
            TokenType::Plus => TokenKind::Plus,
            TokenType::Minus => TokenKind::Minus,
            TokenType::Star => TokenKind::Star,
            TokenType::Slash => TokenKind::Slash,
            TokenType::Percentage => TokenKind::Percentage,
            TokenType::Ampersand => TokenKind::Ampersand,
            TokenType::Bar => TokenKind::Bar,
            TokenType::Carat => TokenKind::Carat,
            TokenType::Tilda => TokenKind::Tilda,
            TokenType::Not => TokenKind::Not,
            TokenType::Equal => TokenKind::Equal,
            TokenType::NotEqual => TokenKind::NotEqual,
            TokenType::Less => TokenKind::Less,
            TokenType::LessEqual => TokenKind::LessEqual,
            TokenType::Greater => TokenKind::Greater,
            TokenType::GreaterEqual => TokenKind::GreaterEqual,
            TokenType::LeftShift => TokenKind::LeftShift,
            TokenType::RightShift => TokenKind::RightShift,
            TokenType::And => TokenKind::And,
            TokenType::Or => TokenKind::Or,
            TokenType::DollarSign => TokenKind::DollarSign,
            TokenType::AtSign => TokenKind::AtSign,
            TokenType::Int => TokenKind::Int,
            TokenType::Double => TokenKind::Double,
            TokenType::Bool => TokenKind::Bool,
            TokenType::Char => TokenKind::Char,
            TokenType::Void => TokenKind::Void,
            TokenType::Let => TokenKind::Let,
            TokenType::If => TokenKind::If,
            TokenType::Else => TokenKind::Else,
            TokenType::While => TokenKind::While,
            TokenType::For => TokenKind::For,
            TokenType::Loop => TokenKind::Loop,
            TokenType::Break => TokenKind::Break,
            TokenType::Return => TokenKind::Return,
            TokenType::Result => TokenKind::Result,
            TokenType::New => TokenKind::New,
            TokenType::Delete => TokenKind::Delete,
            TokenType::Fn => TokenKind::Fn,
            TokenType::Extern => TokenKind::Extern,
            TokenType::As => TokenKind::As,
            TokenType::Struct => TokenKind::Struct,
            TokenType::Impl => TokenKind::Impl,
            TokenType::Main => TokenKind::Main,
            TokenType::Scope => TokenKind::Scope,
            TokenType::Require => TokenKind::Require,
            TokenType::From => TokenKind::From,
            TokenType::Putc => TokenKind::Putc,
            TokenType::Getc => TokenKind::Getc,
        }
    }
}

impl Clone for TokenType {
    fn clone(&self) -> (r: TokenType)
        ensures
            r == *self,
    {
        match self {
            TokenType::Identifier(x) => TokenType::Identifier(x.clone()),
            TokenType::IntLiteral(x) => TokenType::IntLiteral(*x),
            TokenType::DoubleLiteral(x) => TokenType::DoubleLiteral(*x),
            TokenType::BoolLiteral(x) => TokenType::BoolLiteral(*x),
            TokenType::CharLiteral(x) => TokenType::CharLiteral(*x),
            TokenType::StringLiteral(x) => TokenType::StringLiteral(x.clone()),
            TokenType::AnyIdentifier => TokenType::AnyIdentifier,
            TokenType::EOF => TokenType::EOF,
            TokenType::Semicolon => TokenType::Semicolon,
            TokenType::Colon => TokenType::Colon,
            TokenType::DoubleColon => TokenType::DoubleColon,
            TokenType::Comma => TokenType::Comma,
            TokenType::Dot => TokenType::Dot,
            TokenType::Arrow => TokenType::Arrow,
            TokenType::LeftParen => TokenType::LeftParen,
            TokenType::RightParen => TokenType::RightParen,
            TokenType::LeftCurly => TokenType::LeftCurly,
            TokenType::RightCurly => TokenType::RightCurly,
            TokenType::LeftSquare => TokenType::LeftSquare,
            TokenType::RightSquare => TokenType::RightSquare,
            TokenType::Assignment => TokenType::Assignment,
            TokenType::Plus => TokenType::Plus,
            TokenType::Minus => TokenType::Minus,
            TokenType::Star => TokenType::Star,
            TokenType::Slash => TokenType::Slash,
            TokenType::Percentage => TokenType::Percentage,
            TokenType::Ampersand => TokenType::Ampersand,
            TokenType::Bar => TokenType::Bar,
            TokenType::Carat => TokenType::Carat,
            TokenType::Tilda => TokenType::Tilda,
            TokenType::Not => TokenType::Not,
            TokenType::Equal => TokenType::Equal,
            TokenType::NotEqual => TokenType::NotEqual,
            TokenType::Less => TokenType::Less,
            TokenType::LessEqual => TokenType::LessEqual,
            TokenType::Greater => TokenType::Greater,
            TokenType::GreaterEqual => TokenType::GreaterEqual,
            TokenType::LeftShift => TokenType::LeftShift,
            TokenType::RightShift => TokenType::RightShift,
            TokenType::And => TokenType::And,
            TokenType::Or => TokenType::Or,
            TokenType::DollarSign => TokenType::DollarSign,
            TokenType::AtSign => TokenType::AtSign,
            TokenType::Int => TokenType::Int,
            TokenType::Double => TokenType::Double,
            TokenType::Bool => TokenType::Bool,
            TokenType::Char => TokenType::Char,
            TokenType::Void => TokenType::Void,
            TokenType::Let => TokenType::Let,
            TokenType::If => TokenType::If,
            TokenType::Else => TokenType::Else,
            TokenType::While => TokenType::While,
            TokenType::For => TokenType::For,
            TokenType::Loop => TokenType::Loop,
            TokenType::Break => TokenType::Break,
            TokenType::Return => TokenType::Return,
            TokenType::Result => TokenType::Result,
            TokenType::New => TokenType::New,
            TokenType::Delete => TokenType::Delete,
            TokenType::Fn => TokenType::Fn,
            TokenType::Extern => TokenType::Extern,
            TokenType::As => TokenType::As,
            TokenType::Struct => TokenType::Struct,
            TokenType::Impl => TokenType::Impl,
            TokenType::Main => TokenType::Main,
            TokenType::Scope => TokenType::Scope,
            TokenType::Require => TokenType::Require,
            TokenType::From => TokenType::From,
            TokenType::Putc => TokenType::Putc,
            TokenType::Getc => TokenType::Getc,
        }
    }
}

/// A token: its type and the span of source it covers.
#[derive(Debug)]
pub struct Token {
    pub value: TokenType,
    pub position: PositionRange,
}

impl Clone for Token {
    fn clone(&self) -> (r: Token)
        ensures
            r == *self,
    {
        Token { value: self.value.clone(), position: self.position }
    }
}

impl Token {
    pub fn new(value: TokenType, position: PositionRange) -> (t: Token)
        ensures
            t.value == value,
            t.position == position,
    {
        Token { value, position }
    }

    pub fn get_position(&self) -> (r: &PositionRange)
        ensures
            *r == self.position,
    {
        &self.position
    }

    /// The name of an identifier token, located where the token stands.
    pub fn unwrap_identifier(self) -> (r: Located<String>)
        requires
            self.value.spec_kind() == TokenKind::Identifier,
        ensures
            self.value is Identifier,
            r.data == self.value->Identifier_0,
            r.position == self.position,
    {
        proof {
            self.value.lemma_identifier_kind();
        }
        match self.value {
            TokenType::Identifier(name) => Located { data: name, position: self.position },
            _ => Located { data: String::new(), position: self.position },
        }
    }
}

} // verus!
