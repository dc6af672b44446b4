use vstd::prelude::*;

verus! {

/// Operator and keyword tags of the input alphabet.
#[derive(Clone, Copy, Debug, PartialEq, Eq, Structural)]
pub enum Symbol {
    OpenParens,
    CloseParens,
    Add,
    Sub,
    Mul,
    Div,
    Mod,
    Pow,
    Factorial,
    Backslash,
    Dot,
    Fn,
    Equals,
    Semicolon,
    UnitConversion,
    Of,
}

/// A numeric literal, already validated by the lexer and kept as written.
#[derive(Debug, PartialEq, Eq)]
pub struct Number(pub String);

impl Number {
    pub fn duplicate(&self) -> (r: Number)
        ensures
            r == *self,
    {
        Number(self.0.clone())
    }
}

/// An identifier as written in the input.
#[derive(Debug, PartialEq, Eq)]
pub struct Ident(pub String);

/// Identifiers that attach to a following number as a prefix: `$`, `£` and `¥`.
pub open spec fn is_prefix_unit_name(s: Seq<char>) -> bool {
    s == seq!['$'] || s == seq!['\u{a3}'] || s == seq!['\u{a5}']
}

impl Ident {
    pub fn duplicate(&self) -> (r: Ident)
        ensures
            r == *self,
    {
        Ident(self.0.clone())
    }

    /// Whether this identifier is a unit written before its number (`$5`).
    pub fn is_prefix_unit(&self) -> (r: bool)
        ensures
            r == is_prefix_unit_name(self.0@),
    {
        let s = self.0.as_str();
        if s.unicode_len() != 1 {
            return false;
        }
        let c = s.get_char(0);
        assert(s@ =~= seq![c]);
        c == '$' || c == '\u{a3}' || c == '\u{a5}'
    }
}

/// One token of the lexer's output.
#[derive(Debug, PartialEq, Eq)]
pub enum Token {
    Num(Number),
    Ident(Ident),
    StringLiteral(String),
    Symbol(Symbol),
    Whitespace,
}

} // verus!
