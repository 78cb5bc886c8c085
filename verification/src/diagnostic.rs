//! Diagnostics: the errors and warnings that the front end reports, and their messages.
use vstd::prelude::*;

use crate::token::{kind_text, PositionRange, TokenKind};

verus! {

/// How serious a diagnostic is.
#[derive(Clone, Copy, Debug, PartialEq, Eq, Structural)]
pub enum DiagnosticSeverity {
    Error,
    Warning,
}

/// The text by which a severity is shown.
pub open spec fn severity_text(severity: DiagnosticSeverity) -> Seq<char> {
    match severity {
        DiagnosticSeverity::Error => "ERROR"@,
        DiagnosticSeverity::Warning => "WARNING"@,
    }
}

impl DiagnosticSeverity {
    /// The text by which this severity is shown.
    pub fn text(&self) -> (r: &'static str)
        ensures
            r@ == severity_text(*self),
    {
        match self {
            DiagnosticSeverity::Error => "ERROR",
            DiagnosticSeverity::Warning => "WARNING",
        }
    }
}

/// A message about a span of source.
#[derive(Debug)]
pub struct Diagnostic {
    pub severity: DiagnosticSeverity,
    pub message: String,
    pub position: PositionRange,
}

/// The character of a decimal digit.
pub open spec fn digit_char(d: nat) -> char {
    if d == 0 { '0' } else if d == 1 { '1' } else if d == 2 { '2' } else if d == 3 { '3' } else if d == 4 {
        '4'
    } else if d == 5 { '5' } else if d == 6 { '6' } else if d == 7 { '7' } else if d == 8 { '8' } else { '9' }
}

/// A number written in decimal, without leading zeros.
pub open spec fn decimal_text(n: nat) -> Seq<char>
    decreases n,
{
    if n < 10 {
        seq![digit_char(n)]
    } else {
        decimal_text(n / 10).push(digit_char(n % 10))
    }
}

/// How a diagnostic is shown: `SEVERITY, [line:char - line:char]: message`.
pub open spec fn diagnostic_text(d: DiagnosticView) -> Seq<char> {
    severity_text(d.severity) + ", ["@ + decimal_text(d.position.start.line as nat) + ":"@ + decimal_text(
        d.position.start.char as nat,
    ) + " - "@ + decimal_text(d.position.end.line as nat) + ":"@ + decimal_text(d.position.end.char as nat) + "]: "@
        + d.message
}

/// The character of the decimal digit `d`.
fn digit(d: usize) -> (c: char)
    requires
        d < 10,
    ensures
        c == digit_char(d as nat),
{
    match d {
        0 => '0',
        1 => '1',
        2 => '2',
        3 => '3',
        4 => '4',
        5 => '5',
        6 => '6',
        7 => '7',
        8 => '8',
        _ => '9',
    }
}

/// Appends `n` in decimal.
fn push_decimal(s: &mut String, n: usize)
    ensures
        final(s)@ == old(s)@ + decimal_text(n as nat),
    decreases n,
{
    if n >= 10 {
        push_decimal(s, n / 10);
    }
    push_char(s, digit(n % 10));
    proof {
        if n >= 10 {
            assert(old(s)@ + decimal_text(n as nat) =~= old(s)@ + decimal_text((n / 10) as nat) + seq![digit_char((n % 10) as nat)]);
        } else {
            assert(old(s)@ + decimal_text(n as nat) =~= old(s)@.push(digit_char(n as nat)));
        }
    }
}

impl Diagnostic {
    /// How this diagnostic is shown: its severity, its span and its message.
    pub fn text(&self) -> (r: String)
        ensures
            r@ == diagnostic_text(self@),
    {
        let mut s = String::from_str(self.severity.text());
        s.append(", [");
        push_decimal(&mut s, self.position.start.line);
        s.append(":");
        push_decimal(&mut s, self.position.start.char);
        s.append(" - ");
        push_decimal(&mut s, self.position.end.line);
        s.append(":");
        push_decimal(&mut s, self.position.end.char);
        s.append("]: ");
        s.append(self.message.as_str());
        proof {
            reveal_strlit(", [");
            reveal_strlit(":");
            reveal_strlit(" - ");
            reveal_strlit("]: ");
        }
        s
    }
}

/// What a diagnostic says, with its message as a sequence of characters.
pub struct DiagnosticView {
    pub severity: DiagnosticSeverity,
    pub message: Seq<char>,
    pub position: PositionRange,
}

impl View for Diagnostic {
    type V = DiagnosticView;

    open spec fn view(&self) -> DiagnosticView {
        DiagnosticView { severity: self.severity, message: self.message@, position: self.position }
    }
}

/// The errors that the front end can report.
#[derive(Debug)]
pub enum ErrMsg {
    ErrUnknownSymbol(char),
    ErrUnterminatedString,
    ErrDecimalLiteralAsInt,
    ExpectedStatement,
    ExpectedExpression,
    ExpectedDeclaration,
    ExpectedAssignment,
    ExpectedBlock,
    ExpectedType,
    ExpectedArguments,
    ExpectedParameters,
    ExpectedStructName,
    ExpectedMemberName,
    ExpectedFnName,
    UnexpectedToken,
    ExpectedItem,
    ExpectedArgName,
    ExpectedVar,
    ExpectedTypeNameOrIdentifier,
    CannotReferenceArrayType,
    ExpectedToken(TokenKind),
    UnknownTypeName(String),
    UnknownVariable(String),
    DuplicateVariable(String),
}

/// The message of an error.
pub open spec fn message_text(err: ErrMsg) -> Seq<char> {
    match err {
        ErrMsg::ErrUnknownSymbol(c) => "unknown symbol "@.push(c),
        ErrMsg::ErrUnterminatedString => "unterminated string"@,
        ErrMsg::ErrDecimalLiteralAsInt => "decimal literal cannot be used as int"@,
        ErrMsg::ExpectedStatement => "expected statement"@,
        ErrMsg::ExpectedExpression => "expected expression"@,
        ErrMsg::ExpectedDeclaration => "expected declaration"@,
        ErrMsg::ExpectedAssignment => "expected assignment"@,
        ErrMsg::ExpectedBlock => "expected block"@,
        ErrMsg::ExpectedType => "expected type"@,
        ErrMsg::ExpectedArguments => "expected arguments"@,
        ErrMsg::ExpectedParameters => "expected parameters"@,
        ErrMsg::ExpectedStructName => "expected struct name"@,
        ErrMsg::ExpectedMemberName => "expected member name"@,
        ErrMsg::ExpectedFnName => "expected function name"@,
        ErrMsg::UnexpectedToken => "unexpected token"@,
        ErrMsg::ExpectedItem => "expected item"@,
        ErrMsg::ExpectedArgName => "expected arg name"@,
        ErrMsg::ExpectedVar => "expected variable"@,
        ErrMsg::ExpectedTypeNameOrIdentifier => "expected type name or identifier"@,
        ErrMsg::CannotReferenceArrayType => "cannot reference array type"@,
        ErrMsg::ExpectedToken(kind) => "expected '"@ + kind_text(kind) + "' token"@,
        ErrMsg::UnknownTypeName(name) => "unknown type name "@ + name@,
        ErrMsg::UnknownVariable(name) => "unknown variable "@ + name@,
        ErrMsg::DuplicateVariable(name) => "duplicate variable "@ + name@,
    }
}

/// The diagnostic that reports `err` as an error at `position`.
pub open spec fn error_at(err: ErrMsg, position: PositionRange) -> DiagnosticView {
    DiagnosticView { severity: DiagnosticSeverity::Error, message: message_text(err), position }
}

/// What std's `Debug` formatting writes for a string: the string between double quotes,
/// with the characters that need it escaped.
pub uninterp spec fn debug_str_text(s: Seq<char>) -> Seq<char>;

/// A character that `Debug` formatting writes unchanged inside a string: an ASCII letter
/// or digit, or `_`.
pub open spec fn plain_char(c: char) -> bool {
    ('a' <= c && c <= 'z') || ('A' <= c && c <= 'Z') || ('0' <= c && c <= '9') || c == '_'
}

/// Formats a string with std's `Debug`, as `format!("{:?}", s)` does. Its contract, taken on
/// trust, says that the result is `debug_str_text` of the string, a function of the string
/// alone; and, as std documents for `str`'s `Debug` (quotes around `char::escape_debug` of
/// each character), that a string of ASCII letters, digits and underscores comes back
/// unchanged between double quotes. What other characters become is left unsaid.
#[verifier::external_body]
pub(crate) fn debug_quoted(s: &str) -> (r: String)
    ensures
        r@ == debug_str_text(s@),
        (forall|i: int| 0 <= i < s@.len() ==> plain_char(#[trigger] s@[i])) ==> r@ == seq!['"'] + s@ + seq!['"'],
{
    format!("{:?}", s)
}

/// The error that reports a type name that the scope does not declare, given the name as
/// `Debug` formats it.
pub open spec fn unknown_type_name_at(quoted: Seq<char>, position: PositionRange) -> DiagnosticView {
    DiagnosticView { severity: DiagnosticSeverity::Error, message: "Unknown type name "@ + quoted, position }
}

/// The error for a type name that the scope does not declare, from the name as `Debug`
/// formats it (between double quotes).
pub fn unknown_type_name_error(quoted: String, position: PositionRange) -> (d: Diagnostic)
    ensures
        d@ == unknown_type_name_at(quoted@, position),
{
    let mut message = String::from_str("Unknown type name ");
    message.append(quoted.as_str());
    proof {
        reveal_strlit("Unknown type name ");
    }
    Diagnostic { severity: DiagnosticSeverity::Error, message, position }
}

/// Appends one character to a string with `String::push`. Its contract, taken on trust as
/// std documents it, says that the string afterwards is the one before with `c` at the end.
#[verifier::external_body]
pub(crate) fn push_char(s: &mut String, c: char)
    ensures
        final(s)@ == old(s)@.push(c),
{
    s.push(c);
}

impl ErrMsg {
    /// The message of this error.
    pub fn message(&self) -> (r: String)
        ensures
            r@ == message_text(*self),
    {
        match self {
            ErrMsg::ErrUnknownSymbol(c) => {
                let mut s = String::from_str("unknown symbol ");
                push_char(&mut s, *c);
                s
            },
            ErrMsg::ErrUnterminatedString => String::from_str("unterminated string"),
            ErrMsg::ErrDecimalLiteralAsInt => String::from_str("decimal literal cannot be used as int"),
            ErrMsg::ExpectedStatement => String::from_str("expected statement"),
            ErrMsg::ExpectedExpression => String::from_str("expected expression"),
            ErrMsg::ExpectedDeclaration => String::from_str("expected declaration"),
            ErrMsg::ExpectedAssignment => String::from_str("expected assignment"),
            ErrMsg::ExpectedBlock => String::from_str("expected block"),
            ErrMsg::ExpectedType => String::from_str("expected type"),
            ErrMsg::ExpectedArguments => String::from_str("expected arguments"),
            ErrMsg::ExpectedParameters => String::from_str("expected parameters"),
            ErrMsg::ExpectedStructName => String::from_str("expected struct name"),
            ErrMsg::ExpectedMemberName => String::from_str("expected member name"),
            ErrMsg::ExpectedFnName => String::from_str("expected function name"),
            ErrMsg::UnexpectedToken => String::from_str("unexpected token"),
            ErrMsg::ExpectedItem => String::from_str("expected item"),
            ErrMsg::ExpectedArgName => String::from_str("expected arg name"),
            ErrMsg::ExpectedVar => String::from_str("expected variable"),
            ErrMsg::ExpectedTypeNameOrIdentifier => String::from_str("expected type name or identifier"),
            ErrMsg::CannotReferenceArrayType => String::from_str("cannot reference array type"),
            ErrMsg::ExpectedToken(kind) => {
                let mut s = String::from_str("expected '");
                s.append(kind.text());
                s.append("' token");
                s
            },
            ErrMsg::UnknownTypeName(name) => {
                let mut s = String::from_str("unknown type name ");
                s.append(name.as_str());
                s
            },
            ErrMsg::UnknownVariable(name) => {
                let mut s = String::from_str("unknown variable ");
                s.append(name.as_str());
                s
            },
            ErrMsg::DuplicateVariable(name) => {
                let mut s = String::from_str("duplicate variable ");
                s.append(name.as_str());
                s
            },
        }
    }

    /// The error diagnostic that reports this error at `position`.
    pub fn make_diagnostic(self, position: PositionRange) -> (d: Diagnostic)
        ensures
            d@ == error_at(self, position),
    {
        Diagnostic { severity: DiagnosticSeverity::Error, message: self.message(), position }
    }
}

} // verus!
