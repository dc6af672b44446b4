//! The grammar, stated over the token sequence. Positions are indices into
//! the sequence; each rule gives the tree it builds and where it stopped.
//! A rule only recurses at a position past the one it started from
//! (`advances`), which every successful parse guarantees.
use vstd::prelude::*;
use crate::ast::{Bop, Expr, Value};
use crate::token::{Ident, Symbol, Token, is_prefix_unit_name};

verus! {

/// Why a parse failed.
#[derive(Debug, PartialEq, Eq)]
pub enum ParseError {
    ExpectedAToken,
    ExpectedToken(Symbol, Symbol),
    FoundInvalidTokenWhileExpecting(Symbol),
    ExpectedANumber,
    ExpectedIdentifier,
    UnexpectedSymbol(Symbol),
    InvalidApplyOperands,
    UnexpectedInput,
    ExpectedIdentifierAsArgument,
    ExpectedIdentifierInAssignment,
    ExpectedDotInLambda(Box<ParseError>),
    InvalidMixedFraction,
    UnexpectedWhitespace,
}

pub type Parsed = Result<(Expr, int), ParseError>;

pub open spec fn advances(t: Seq<Token>, from: int, to: int) -> bool {
    from < to <= t.len()
}

pub open spec fn skip_whitespace(t: Seq<Token>, pos: int) -> int
    decreases t.len() - pos,
{
    if 0 <= pos < t.len() && t[pos] is Whitespace {
        skip_whitespace(t, pos + 1)
    } else {
        pos
    }
}

/// The index of the next token, whitespace skipped if asked.
pub open spec fn token_at(t: Seq<Token>, pos: int, skip: bool) -> Result<int, ParseError> {
    let i = if skip {
        skip_whitespace(t, pos)
    } else {
        pos
    };
    if 0 <= i < t.len() {
        Ok(i)
    } else {
        Err(ParseError::ExpectedAToken)
    }
}

/// The position after the expected symbol.
pub open spec fn fixed_symbol(t: Seq<Token>, pos: int, sym: Symbol) -> Result<int, ParseError> {
    match token_at(t, pos, true) {
        Err(e) => Err(e),
        Ok(i) => match t[i] {
            Token::Symbol(s) => if s == sym {
                Ok(i + 1)
            } else {
                Err(ParseError::ExpectedToken(s, sym))
            },
            _ => Err(ParseError::FoundInvalidTokenWhileExpecting(sym)),
        },
    }
}

pub open spec fn number(t: Seq<Token>, pos: int) -> Parsed {
    match token_at(t, pos, true) {
        Err(e) => Err(e),
        Ok(i) => match t[i] {
            Token::Num(n) => Ok((Expr::Literal(Value::Num(n)), i + 1)),
            _ => Err(ParseError::ExpectedANumber),
        },
    }
}

pub open spec fn is_num(e: Expr) -> bool {
    e matches Expr::Literal(Value::Num(_))
}

/// `Some(true)` for a bare numeric literal, `Some(false)` for its negation.
pub open spec fn signed_literal(e: Expr) -> Option<bool> {
    match e {
        Expr::Literal(Value::Num(_)) => Some(true),
        Expr::UnaryMinus(x) => if is_num(*x) {
            Some(false)
        } else {
            None
        },
        _ => None,
    }
}

/// The tree that the left operand of an implicit application forms with its right operand,
/// or `None` where that juxtaposition is reserved for a mixed fraction or an implicit sum.
pub open spec fn apply_shape(lhs: Expr, rhs: Expr) -> Option<Expr> {
    let numeric_lhs = is_num(lhs) || signed_literal(lhs) == Some(false) || lhs is ApplyMul;
    let pow_of_num = match rhs {
        Expr::Bop(Bop::Pow, a, _) => is_num(*a),
        _ => false,
    };
    let prefix_unit = match lhs {
        Expr::Ident(Ident(s)) => is_prefix_unit_name(s@),
        _ => false,
    };
    if numeric_lhs && (is_num(rhs) || pow_of_num) {
        None
    } else if prefix_unit && is_num(rhs) {
        Some(Expr::Apply(Box::new(lhs), Box::new(rhs)))
    } else if is_num(rhs) {
        Some(Expr::ApplyFunctionCall(Box::new(lhs), Box::new(rhs)))
    } else if is_num(lhs) || lhs is ApplyMul {
        Some(Expr::ApplyMul(Box::new(lhs), Box::new(rhs)))
    } else {
        Some(Expr::Apply(Box::new(lhs), Box::new(rhs)))
    }
}

/// `base + frac` or `base - frac`.
pub open spec fn signed_sum(positive: bool, base: Expr, frac: Expr) -> Expr {
    if positive {
        Expr::Bop(Bop::Plus, Box::new(base), Box::new(frac))
    } else {
        Expr::Bop(Bop::Minus, Box::new(base), Box::new(frac))
    }
}

/// `lhs ± top/bottom`; where `lhs` is `other * x`, the sum is taken with `x`
/// and `other` multiplies it.
pub open spec fn mixed_fraction_of(lhs: Expr, positive: bool, top: Expr, bottom: Expr) -> Expr {
    let frac = Expr::Bop(Bop::Div, Box::new(top), Box::new(bottom));
    match lhs {
        Expr::Bop(Bop::Mul, a, b) => Expr::Bop(
            Bop::Mul,
            a,
            Box::new(signed_sum(positive, *b, frac)),
        ),
        _ => signed_sum(positive, lhs, frac),
    }
}

/// The sign of the whole number that a mixed fraction continues, if `lhs` can start one.
pub open spec fn mixed_fraction_sign(lhs: Expr) -> Option<bool> {
    match signed_literal(lhs) {
        Some(s) => Some(s),
        None => match lhs {
            Expr::Bop(Bop::Mul, _, b) => signed_literal(*b),
            _ => None,
        },
    }
}

pub open spec fn factorial_loop(t: Seq<Token>, pos: int, res: Expr) -> (Expr, int)
    decreases t.len() - pos,
{
    match fixed_symbol(t, pos, Symbol::Factorial) {
        Ok(p) => if advances(t, pos, p) {
            factorial_loop(t, p, Expr::Factorial(Box::new(res)))
        } else {
            (res, pos)
        },
        Err(_) => (res, pos),
    }
}

pub open spec fn ident(t: Seq<Token>, pos: int) -> Parsed
    decreases t.len() - pos, 1int,
{
    match token_at(t, pos, true) {
        Err(e) => Err(e),
        Ok(i) => match t[i] {
            Token::Ident(id) => match fixed_symbol(t, i + 1, Symbol::Of) {
                Ok(p) => if advances(t, pos, p) {
                    match parens_or_literal(t, p) {
                        Ok((inner, q)) => Ok((Expr::Of(id, Box::new(inner)), q)),
                        Err(e) => Err(e),
                    }
                } else {
                    Err(ParseError::ExpectedAToken)
                },
                Err(_) => Ok((Expr::Ident(id), i + 1)),
            },
            _ => Err(ParseError::ExpectedIdentifier),
        },
    }
}

pub open spec fn parens(t: Seq<Token>, pos: int) -> Parsed
    decreases t.len() - pos, 1int,
{
    match fixed_symbol(t, pos, Symbol::OpenParens) {
        Err(e) => Err(e),
        Ok(at1) => match fixed_symbol(t, at1, Symbol::CloseParens) {
            Ok(at2) => Ok((Expr::Literal(Value::Unit), at2)),
            Err(_) => if advances(t, pos, at1) {
                match expression(t, at1) {
                    Err(e) => Err(e),
                    Ok((inner, at2)) => if token_at(t, at2, true) is Ok {
                        match fixed_symbol(t, at2, Symbol::CloseParens) {
                            Err(e) => Err(e),
                            Ok(at3) => Ok((Expr::Parens(Box::new(inner)), at3)),
                        }
                    } else {
                        // the input ended (but for whitespace) before the `)`
                        Ok((Expr::Parens(Box::new(inner)), t.len() as int))
                    },
                }
            } else {
                Err(ParseError::ExpectedAToken)
            },
        },
    }
}

pub open spec fn backslash_lambda(t: Seq<Token>, pos: int) -> Parsed
    decreases t.len() - pos, 1int,
{
    match fixed_symbol(t, pos, Symbol::Backslash) {
        Err(e) => Err(e),
        Ok(at1) => if !advances(t, pos, at1) {
            Err(ParseError::ExpectedAToken)
        } else if at1 < t.len() && t[at1] is Whitespace {
            Err(ParseError::UnexpectedWhitespace)
        } else {
            match ident(t, at1) {
                Err(e) => Err(e),
                Ok((Expr::Ident(id), at2)) => match fixed_symbol(t, at2, Symbol::Dot) {
                    Err(e) => Err(ParseError::ExpectedDotInLambda(Box::new(e))),
                    Ok(at3) => if advances(t, pos, at3) {
                        match function(t, at3) {
                            Err(e) => Err(e),
                            Ok((body, q)) => Ok((Expr::Fn(id, Box::new(body)), q)),
                        }
                    } else {
                        Err(ParseError::ExpectedAToken)
                    },
                },
                Ok(_) => Err(ParseError::ExpectedIdentifier),
            }
        },
    }
}

pub open spec fn parens_or_literal(t: Seq<Token>, pos: int) -> Parsed
    decreases t.len() - pos, 2int,
{
    match token_at(t, pos, true) {
        Err(e) => Err(e),
        Ok(i) => match t[i] {
            Token::Num(_) => number(t, pos),
            Token::Ident(_) => ident(t, pos),
            Token::StringLiteral(s) => Ok((Expr::Literal(Value::Str(s)), i + 1)),
            Token::Symbol(Symbol::OpenParens) => parens(t, pos),
            Token::Symbol(Symbol::Backslash) => backslash_lambda(t, pos),
            Token::Symbol(s) => Err(ParseError::UnexpectedSymbol(s)),
            Token::Whitespace => Err(ParseError::UnexpectedWhitespace),
        },
    }
}

pub open spec fn factorial(t: Seq<Token>, pos: int) -> Parsed
    decreases t.len() - pos, 3int,
{
    match parens_or_literal(t, pos) {
        Err(e) => Err(e),
        Ok((res, p)) => Ok(factorial_loop(t, p, res)),
    }
}

pub open spec fn power(t: Seq<Token>, pos: int, allow_unary: bool) -> Parsed
    decreases t.len() - pos, 5int,
{
    let prefix = if !allow_unary {
        None
    } else if fixed_symbol(t, pos, Symbol::Sub) is Ok {
        Some(Symbol::Sub)
    } else if fixed_symbol(t, pos, Symbol::Add) is Ok {
        Some(Symbol::Add)
    } else if fixed_symbol(t, pos, Symbol::Div) is Ok {
        Some(Symbol::Div)
    } else {
        None
    };
    if let Some(sym) = prefix {
        // a prefix operator applies to the whole power expression after it
        let p = fixed_symbol(t, pos, sym)->Ok_0;
        if advances(t, pos, p) {
            match power(t, p, true) {
                Err(e) => Err(e),
                Ok((e, q)) => Ok((
                    match sym {
                        Symbol::Sub => Expr::UnaryMinus(Box::new(e)),
                        Symbol::Add => Expr::UnaryPlus(Box::new(e)),
                        _ => Expr::UnaryDiv(Box::new(e)),
                    },
                    q,
                )),
            }
        } else {
            Err(ParseError::ExpectedAToken)
        }
    } else {
        match factorial(t, pos) {
            Err(e) => Err(e),
            Ok((base, p)) => match fixed_symbol(t, p, Symbol::Pow) {
                Err(_) => Ok((base, p)),
                Ok(q) => if advances(t, pos, q) {
                    match power(t, q, true) {
                        Err(e) => Err(e),
                        Ok((exp, r)) => Ok((Expr::Bop(Bop::Pow, Box::new(base), Box::new(exp)), r)),
                    }
                } else {
                    Err(ParseError::ExpectedAToken)
                },
            },
        }
    }
}

pub open spec fn apply_cont(t: Seq<Token>, pos: int, lhs: Expr) -> Parsed
    decreases t.len() - pos, 6int,
{
    match power(t, pos, false) {
        Err(e) => Err(e),
        Ok((rhs, p)) => match apply_shape(lhs, rhs) {
            Some(e) => Ok((e, p)),
            None => Err(ParseError::InvalidApplyOperands),
        },
    }
}

pub open spec fn mixed_fraction(t: Seq<Token>, pos: int, lhs: Expr) -> Parsed
    decreases t.len() - pos, 6int,
{
    match mixed_fraction_sign(lhs) {
        None => Err(ParseError::InvalidMixedFraction),
        Some(positive) => match power(t, pos, false) {
            Err(e) => Err(e),
            Ok((top, at1)) => if !is_num(top) {
                Err(ParseError::InvalidMixedFraction)
            } else {
                match fixed_symbol(t, at1, Symbol::Div) {
                    Err(e) => Err(e),
                    Ok(at2) => if !advances(t, pos, at2) {
                        Err(ParseError::ExpectedAToken)
                    } else {
                        match power(t, at2, false) {
                            Err(e) => Err(e),
                            Ok((bottom, at3)) => if !is_num(bottom) {
                                Err(ParseError::InvalidMixedFraction)
                            } else {
                                Ok((mixed_fraction_of(lhs, positive, top, bottom), at3))
                            },
                        }
                    },
                }
            },
        },
    }
}

/// An explicit operator symbol followed by a power expression (`* b`, `/ b`, `% b`).
pub open spec fn operator_cont(t: Seq<Token>, pos: int, sym: Symbol) -> Parsed
    decreases t.len() - pos, 6int,
{
    match fixed_symbol(t, pos, sym) {
        Err(e) => Err(e),
        Ok(p) => if advances(t, pos, p) {
            power(t, p, true)
        } else {
            Err(ParseError::ExpectedAToken)
        },
    }
}

/// One continuation of a multiplicative chain: the first alternative that succeeds.
pub open spec fn multiplicative_step(t: Seq<Token>, pos: int, res: Expr) -> Option<(Expr, int)>
    decreases t.len() - pos, 7int,
{
    let bop = |op: Bop, term: Expr| Expr::Bop(op, Box::new(res), Box::new(term));
    match operator_cont(t, pos, Symbol::Mul) {
        Ok((term, p)) => Some((bop(Bop::Mul, term), p)),
        Err(_) => match operator_cont(t, pos, Symbol::Div) {
            Ok((term, p)) => Some((bop(Bop::Div, term), p)),
            Err(_) => match operator_cont(t, pos, Symbol::Mod) {
                Ok((term, p)) => Some((bop(Bop::Mod, term), p)),
                Err(_) => match mixed_fraction(t, pos, res) {
                    Ok(r) => Some(r),
                    Err(_) => match apply_cont(t, pos, res) {
                        Ok(r) => Some(r),
                        Err(_) => None,
                    },
                },
            },
        },
    }
}

pub open spec fn multiplicative_loop(t: Seq<Token>, pos: int, res: Expr) -> (Expr, int)
    decreases t.len() - pos, 8int,
{
    match multiplicative_step(t, pos, res) {
        Some((next, p)) => if advances(t, pos, p) {
            multiplicative_loop(t, p, next)
        } else {
            (res, pos)
        },
        None => (res, pos),
    }
}

pub open spec fn multiplicative(t: Seq<Token>, pos: int) -> Parsed
    decreases t.len() - pos, 9int,
{
    match power(t, pos, true) {
        Err(e) => Err(e),
        Ok((res, p)) => if advances(t, pos, p) {
            Ok(multiplicative_loop(t, p, res))
        } else {
            Ok((res, p))
        },
    }
}

/// Whether two adjacent terms form an implicit sum (`6 feet 1 inch`).
pub open spec fn joins_implicitly(res: Expr, rhs: Expr) -> bool {
    res is ApplyMul && (rhs is ApplyMul || rhs matches Expr::Bop(Bop::ImplicitPlus, _, _)
        || rhs is Literal)
}

pub open spec fn implicit_addition(t: Seq<Token>, pos: int) -> Parsed
    decreases t.len() - pos, 10int,
{
    match multiplicative(t, pos) {
        Err(e) => Err(e),
        Ok((res, p)) => if advances(t, pos, p) {
            match implicit_addition(t, p) {
                Ok((rhs, q)) => if joins_implicitly(res, rhs) {
                    Ok((Expr::Bop(Bop::ImplicitPlus, Box::new(res), Box::new(rhs)), q))
                } else {
                    Ok((res, p))
                },
                Err(_) => Ok((res, p)),
            }
        } else {
            Ok((res, p))
        },
    }
}

/// A `+`, `-` or conversion keyword followed by an implicit sum.
pub open spec fn additive_cont(t: Seq<Token>, pos: int, sym: Symbol) -> Parsed
    decreases t.len() - pos, 11int,
{
    match fixed_symbol(t, pos, sym) {
        Err(e) => Err(e),
        Ok(p) => if advances(t, pos, p) {
            implicit_addition(t, p)
        } else {
            Err(ParseError::ExpectedAToken)
        },
    }
}

pub open spec fn additive_step(t: Seq<Token>, pos: int, res: Expr) -> Option<(Expr, int)>
    decreases t.len() - pos, 12int,
{
    match additive_cont(t, pos, Symbol::Add) {
        Ok((term, p)) => Some((Expr::Bop(Bop::Plus, Box::new(res), Box::new(term)), p)),
        Err(_) => match additive_cont(t, pos, Symbol::Sub) {
            Ok((term, p)) => Some((Expr::Bop(Bop::Minus, Box::new(res), Box::new(term)), p)),
            Err(_) => match additive_cont(t, pos, Symbol::UnitConversion) {
                Ok((term, p)) => Some((Expr::As(Box::new(res), Box::new(term)), p)),
                Err(_) => None,
            },
        },
    }
}

pub open spec fn additive_loop(t: Seq<Token>, pos: int, res: Expr) -> (Expr, int)
    decreases t.len() - pos, 13int,
{
    match additive_step(t, pos, res) {
        Some((next, p)) => if advances(t, pos, p) {
            additive_loop(t, p, next)
        } else {
            (res, pos)
        },
        None => (res, pos),
    }
}

pub open spec fn additive(t: Seq<Token>, pos: int) -> Parsed
    decreases t.len() - pos, 14int,
{
    match implicit_addition(t, pos) {
        Err(e) => Err(e),
        Ok((res, p)) => if advances(t, pos, p) {
            Ok(additive_loop(t, p, res))
        } else {
            Ok((res, p))
        },
    }
}

pub open spec fn function(t: Seq<Token>, pos: int) -> Parsed
    decreases t.len() - pos, 15int,
{
    match additive(t, pos) {
        Err(e) => Err(e),
        Ok((lhs, p)) => match fixed_symbol(t, p, Symbol::Fn) {
            Err(_) => Ok((lhs, p)),
            Ok(q) => match lhs {
                Expr::Ident(s) => if advances(t, pos, q) {
                    match function(t, q) {
                        Err(e) => Err(e),
                        Ok((body, r)) => Ok((Expr::Fn(s, Box::new(body)), r)),
                    }
                } else {
                    Err(ParseError::ExpectedAToken)
                },
                _ => Err(ParseError::ExpectedIdentifierAsArgument),
            },
        },
    }
}

pub open spec fn assignment(t: Seq<Token>, pos: int) -> Parsed
    decreases t.len() - pos, 16int,
{
    match function(t, pos) {
        Err(e) => Err(e),
        Ok((lhs, p)) => match fixed_symbol(t, p, Symbol::Equals) {
            Err(_) => Ok((lhs, p)),
            Ok(q) => match lhs {
                Expr::Ident(s) => if advances(t, pos, q) {
                    match assignment(t, q) {
                        Err(e) => Err(e),
                        Ok((rhs, r)) => Ok((Expr::Assign(s, Box::new(rhs)), r)),
                    }
                } else {
                    Err(ParseError::ExpectedAToken)
                },
                _ => Err(ParseError::ExpectedIdentifierInAssignment),
            },
        },
    }
}

/// The statements after the first: each `;` is followed by another statement,
/// unless only whitespace is left or another `;` follows.
pub open spec fn statements_loop(t: Seq<Token>, pos: int, res: Expr) -> Parsed
    decreases t.len() - pos, 17int,
{
    match fixed_symbol(t, pos, Symbol::Semicolon) {
        Err(_) => Ok((res, pos)),
        Ok(p) => if !advances(t, pos, p) {
            Ok((res, pos))
        } else {
            match token_at(t, p, true) {
                Err(_) => Ok((res, t.len() as int)),
                Ok(i) => if t[i] == Token::Symbol(Symbol::Semicolon) {
                    statements_loop(t, p, res)
                } else {
                    match assignment(t, p) {
                        Err(e) => Err(e),
                        Ok((rhs, q)) => if advances(t, p, q) {
                            statements_loop(t, q, Expr::Statements(Box::new(res), Box::new(rhs)))
                        } else {
                            Ok((res, pos))
                        },
                    }
                },
            }
        },
    }
}

pub open spec fn statements(t: Seq<Token>, pos: int) -> Parsed
    decreases t.len() - pos, 18int,
{
    match fixed_symbol(t, pos, Symbol::Semicolon) {
        Ok(p) => if advances(t, pos, p) {
            statements(t, p)
        } else {
            Err(ParseError::ExpectedAToken)
        },
        Err(_) => if token_at(t, pos, true) is Err {
            Ok((Expr::Literal(Value::Unit), t.len() as int))
        } else {
            match assignment(t, pos) {
                Err(e) => Err(e),
                Ok((first, p)) => if advances(t, pos, p) {
                    statements_loop(t, p, first)
                } else {
                    Ok((first, p))
                },
            }
        },
    }
}

pub open spec fn expression(t: Seq<Token>, pos: int) -> Parsed
    decreases t.len() - pos, 19int,
{
    statements(t, pos)
}

/// The tree of a whole token sequence, which must be consumed entirely.
pub open spec fn parse(t: Seq<Token>) -> Result<Expr, ParseError> {
    match expression(t, 0) {
        Err(e) => Err(e),
        Ok((e, p)) => if p != t.len() {
            Err(ParseError::UnexpectedInput)
        } else {
            Ok(e)
        },
    }
}

} // verus!

verus! {

/// Parsing a whole sequence either fails with an error or gives the tree of a
/// top-level expression that consumed every token.
pub proof fn lemma_parse_consumes_all(t: Seq<Token>)
    ensures
        parse(t) is Ok <==> (expression(t, 0) matches Ok((_, p)) && p == t.len()),
        parse(t) matches Ok(e) ==> expression(t, 0) == Ok::<(Expr, int), ParseError>(
            (e, t.len() as int),
        ),
{
}

} // verus!
