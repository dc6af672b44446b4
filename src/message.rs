//! Human-readable text of parse errors.
use vstd::prelude::*;
use vstd::string::*;
use crate::grammar::ParseError;
use crate::token::Symbol;

verus! {

/// How a symbol is written in the input.
pub open spec fn symbol_text(s: Symbol) -> Seq<char> {
    match s {
        Symbol::OpenParens => "("@,
        Symbol::CloseParens => ")"@,
        Symbol::Add => "+"@,
        Symbol::Sub => "-"@,
        Symbol::Mul => "*"@,
        Symbol::Div => "/"@,
        Symbol::Mod => "%"@,
        Symbol::Pow => "^"@,
        Symbol::Factorial => "!"@,
        Symbol::Backslash => "\\"@,
        Symbol::Dot => "."@,
        Symbol::Fn => "->"@,
        Symbol::Equals => "="@,
        Symbol::Semicolon => ";"@,
        Symbol::UnitConversion => "to"@,
        Symbol::Of => "of"@,
    }
}

/// `'` + the symbol's text + `'`.
pub open spec fn quoted(s: Symbol) -> Seq<char> {
    "'"@ + symbol_text(s) + "'"@
}

pub open spec fn error_message(e: ParseError) -> Seq<char> {
    match e {
        ParseError::ExpectedAToken => "expected a token"@,
        ParseError::ExpectedToken(found, expected) => "found "@ + quoted(found)
            + " while expecting "@ + quoted(expected),
        ParseError::FoundInvalidTokenWhileExpecting(sym) => "found an invalid token while expecting "@
            + quoted(sym),
        ParseError::ExpectedANumber => "expected a number"@,
        ParseError::ExpectedIdentifier => "expected an identifier"@,
        ParseError::ExpectedIdentifierAsArgument => "expected an identifier"@,
        ParseError::ExpectedIdentifierInAssignment => "expected an identifier"@,
        ParseError::UnexpectedSymbol(sym) => "expected a value, instead found "@ + quoted(sym),
        ParseError::InvalidApplyOperands => "invalid operands for an application"@,
        ParseError::UnexpectedInput => "unexpected input found"@,
        ParseError::ExpectedDotInLambda(_) => "missing '.' in lambda (expected e.g. \\x.x)"@,
        ParseError::InvalidMixedFraction => "invalid mixed fraction"@,
        ParseError::UnexpectedWhitespace => "unexpected whitespace"@,
    }
}

impl Symbol {
    pub fn as_str(&self) -> (r: &'static str)
        ensures
            r@ == symbol_text(*self),
    {
        match self {
            Symbol::OpenParens => "(",
            Symbol::CloseParens => ")",
            Symbol::Add => "+",
            Symbol::Sub => "-",
            Symbol::Mul => "*",
            Symbol::Div => "/",
            Symbol::Mod => "%",
            Symbol::Pow => "^",
            Symbol::Factorial => "!",
            Symbol::Backslash => "\\",
            Symbol::Dot => ".",
            Symbol::Fn => "->",
            Symbol::Equals => "=",
            Symbol::Semicolon => ";",
            Symbol::UnitConversion => "to",
            Symbol::Of => "of",
        }
    }
}

fn with_quoted(prefix: &str, sym: Symbol) -> (r: String)
    ensures
        r@ == prefix@ + quoted(sym),
{
    let r = String::from_str(prefix).concat("'").concat(sym.as_str()).concat("'");
    assert(r@ =~= prefix@ + quoted(sym));
    r
}

impl ParseError {
    /// The message shown to a user.
    pub fn message(&self) -> (r: String)
        ensures
            r@ == error_message(*self),
    {
        match self {
            ParseError::ExpectedAToken => String::from_str("expected a token"),
            ParseError::ExpectedToken(found, expected) => {
                let r = with_quoted("found ", *found).concat(" while expecting ").concat("'").concat(
                    expected.as_str(),
                ).concat("'");
                assert(r@ =~= error_message(*self));
                r
            },
            ParseError::FoundInvalidTokenWhileExpecting(sym) => with_quoted(
                "found an invalid token while expecting ",
                *sym,
            ),
            ParseError::ExpectedANumber => String::from_str("expected a number"),
            ParseError::ExpectedIdentifier
            | ParseError::ExpectedIdentifierAsArgument
            | ParseError::ExpectedIdentifierInAssignment => String::from_str("expected an identifier"),
            ParseError::UnexpectedSymbol(sym) => with_quoted("expected a value, instead found ", *sym),
            ParseError::InvalidApplyOperands => String::from_str(
                "invalid operands for an application",
            ),
            ParseError::UnexpectedInput => String::from_str("unexpected input found"),
            ParseError::ExpectedDotInLambda(_) => String::from_str(
                "missing '.' in lambda (expected e.g. \\x.x)",
            ),
            ParseError::InvalidMixedFraction => String::from_str("invalid mixed fraction"),
            ParseError::UnexpectedWhitespace => String::from_str("unexpected whitespace"),
        }
    }
}

} // verus!
