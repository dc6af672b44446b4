//! The parser. Each function reads the token slice from a position and
//! returns the tree it built with the position after it, exactly as the rule
//! of the same name in `grammar` says; a failed alternative leaves nothing
//! behind, so backtracking is a matter of trying again from the same position.
use vstd::prelude::*;
use crate::ast::{Bop, Expr, Value};
use crate::grammar::{self, ParseError, Parsed};
use crate::token::{Symbol, Token};

verus! {

pub type ParseResult = Result<(Expr, usize), ParseError>;

/// The result with its position as an integer, as the grammar states it.
pub open spec fn lift(r: ParseResult) -> Parsed {
    match r {
        Ok((e, p)) => Ok((e, p as int)),
        Err(e) => Err(e),
    }
}

pub open spec fn lift_pos(r: Result<usize, ParseError>) -> Result<int, ParseError> {
    match r {
        Ok(p) => Ok(p as int),
        Err(e) => Err(e),
    }
}

/// A successful parse consumed at least one token and stayed inside the input.
pub open spec fn consumes(t: Seq<Token>, pos: int, r: ParseResult) -> bool {
    match r {
        Ok((_, p)) => pos < p <= t.len(),
        Err(_) => true,
    }
}

pub fn parse_token(toks: &[Token], pos: usize, skip_whitespace: bool) -> (r: Result<
    usize,
    ParseError,
>)
    requires
        pos <= toks.len(),
    ensures
        lift_pos(r) == grammar::token_at(toks@, pos as int, skip_whitespace),
        r matches Ok(i) ==> pos <= i < toks.len(),
{
    let mut i: usize = pos;
    if skip_whitespace {
        loop
            invariant
                pos <= i <= toks.len(),
                grammar::skip_whitespace(toks@, pos as int)
                    == grammar::skip_whitespace(toks@, i as int),
            ensures
                i >= toks.len() || !(toks@[i as int] is Whitespace),
            decreases toks.len() - i,
        {
            if i >= toks.len() {
                break;
            }
            match &toks[i] {
                Token::Whitespace => {
                    i = i + 1;
                },
                _ => {
                    break;
                },
            }
        }
    }
    if i < toks.len() {
        Ok(i)
    } else {
        Err(ParseError::ExpectedAToken)
    }
}

pub fn parse_fixed_symbol(toks: &[Token], pos: usize, symbol: Symbol) -> (r: Result<
    usize,
    ParseError,
>)
    requires
        pos <= toks.len(),
    ensures
        lift_pos(r) == grammar::fixed_symbol(toks@, pos as int, symbol),
        r matches Ok(p) ==> pos < p <= toks.len(),
{
    let i = match parse_token(toks, pos, true) {
        Ok(i) => i,
        Err(e) => return Err(e),
    };
    match &toks[i] {
        Token::Symbol(sym) => {
            if *sym == symbol {
                Ok(i + 1)
            } else {
                Err(ParseError::ExpectedToken(*sym, symbol))
            }
        },
        _ => Err(ParseError::FoundInvalidTokenWhileExpecting(symbol)),
    }
}

pub fn parse_number(toks: &[Token], pos: usize) -> (r: ParseResult)
    requires
        pos <= toks.len(),
    ensures
        lift(r) == grammar::number(toks@, pos as int),
        consumes(toks@, pos as int, r),
{
    let i = match parse_token(toks, pos, true) {
        Ok(i) => i,
        Err(e) => return Err(e),
    };
    match &toks[i] {
        Token::Num(n) => Ok((Expr::Literal(Value::Num(n.duplicate())), i + 1)),
        _ => Err(ParseError::ExpectedANumber),
    }
}

} // verus!

verus! {

pub open spec fn lift_step(r: Option<(Expr, usize)>) -> Option<(Expr, int)> {
    match r {
        Some((e, p)) => Some((e, p as int)),
        None => None,
    }
}

/// A parse that may succeed without consuming anything (an empty statement list).
pub open spec fn stays_inside(t: Seq<Token>, pos: int, r: ParseResult) -> bool {
    match r {
        Ok((_, p)) => pos <= p <= t.len(),
        Err(_) => true,
    }
}

pub fn is_number_literal(e: &Expr) -> (r: bool)
    ensures
        r == grammar::is_num(*e),
{
    match e {
        Expr::Literal(Value::Num(_)) => true,
        _ => false,
    }
}

pub fn signed_literal(e: &Expr) -> (r: Option<bool>)
    ensures
        r == grammar::signed_literal(*e),
{
    match e {
        Expr::Literal(Value::Num(_)) => Some(true),
        Expr::UnaryMinus(x) => if is_number_literal(&**x) {
            Some(false)
        } else {
            None
        },
        _ => None,
    }
}

pub fn mixed_fraction_sign(lhs: &Expr) -> (r: Option<bool>)
    ensures
        r == grammar::mixed_fraction_sign(*lhs),
{
    match signed_literal(lhs) {
        Some(s) => Some(s),
        None => match lhs {
            Expr::Bop(Bop::Mul, _, b) => signed_literal(&**b),
            _ => None,
        },
    }
}

fn signed_sum(positive: bool, base: Expr, frac: Expr) -> (r: Expr)
    ensures
        r == grammar::signed_sum(positive, base, frac),
{
    if positive {
        Expr::Bop(Bop::Plus, Box::new(base), Box::new(frac))
    } else {
        Expr::Bop(Bop::Minus, Box::new(base), Box::new(frac))
    }
}

/// Resolves a juxtaposition `lhs rhs` by the shapes of its two operands.
pub fn apply_shape(lhs: &Expr, rhs: Expr) -> (r: Option<Expr>)
    ensures
        r == grammar::apply_shape(*lhs, rhs),
{
    let numeric_lhs = is_number_literal(lhs) || matches!(signed_literal(lhs), Some(false))
        || matches!(lhs, Expr::ApplyMul(_, _));
    let rhs_num = is_number_literal(&rhs);
    let pow_of_num = match &rhs {
        Expr::Bop(Bop::Pow, a, _) => is_number_literal(&**a),
        _ => false,
    };
    let prefix_unit = match lhs {
        Expr::Ident(i) => i.is_prefix_unit(),
        _ => false,
    };
    if numeric_lhs && (rhs_num || pow_of_num) {
        None
    } else if prefix_unit && rhs_num {
        Some(Expr::Apply(Box::new(lhs.duplicate()), Box::new(rhs)))
    } else if rhs_num {
        Some(Expr::ApplyFunctionCall(Box::new(lhs.duplicate()), Box::new(rhs)))
    } else if is_number_literal(lhs) || matches!(lhs, Expr::ApplyMul(_, _)) {
        Some(Expr::ApplyMul(Box::new(lhs.duplicate()), Box::new(rhs)))
    } else {
        Some(Expr::Apply(Box::new(lhs.duplicate()), Box::new(rhs)))
    }
}

pub fn joins_implicitly(res: &Expr, rhs: &Expr) -> (r: bool)
    ensures
        r == grammar::joins_implicitly(*res, *rhs),
{
    matches!(res, Expr::ApplyMul(_, _)) && (matches!(rhs, Expr::ApplyMul(_, _))
        || matches!(rhs, Expr::Bop(Bop::ImplicitPlus, _, _)) || matches!(rhs, Expr::Literal(_)))
}

pub fn parse_ident(toks: &[Token], pos: usize) -> (r: ParseResult)
    requires
        pos <= toks.len(),
    ensures
        lift(r) == grammar::ident(toks@, pos as int),
        consumes(toks@, pos as int, r),
    decreases toks.len() - pos, 1int,
{
    let i = match parse_token(toks, pos, true) {
        Ok(i) => i,
        Err(e) => return Err(e),
    };
    match &toks[i] {
        Token::Ident(id) => match parse_fixed_symbol(toks, i + 1, Symbol::Of) {
            Ok(p) => match parse_parens_or_literal(toks, p) {
                Ok((inner, q)) => Ok((Expr::Of(id.duplicate(), Box::new(inner)), q)),
                Err(e) => Err(e),
            },
            Err(_) => Ok((Expr::Ident(id.duplicate()), i + 1)),
        },
        _ => Err(ParseError::ExpectedIdentifier),
    }
}

pub fn parse_parens(toks: &[Token], pos: usize) -> (r: ParseResult)
    requires
        pos <= toks.len(),
    ensures
        lift(r) == grammar::parens(toks@, pos as int),
        consumes(toks@, pos as int, r),
    decreases toks.len() - pos, 1int,
{
    let input = match parse_fixed_symbol(toks, pos, Symbol::OpenParens) {
        Ok(p) => p,
        Err(e) => return Err(e),
    };
    if let Ok(remaining) = parse_fixed_symbol(toks, input, Symbol::CloseParens) {
        return Ok((Expr::Literal(Value::Unit), remaining));
    }
    let (inner, mut input) = match parse_expression(toks, input) {
        Ok(x) => x,
        Err(e) => return Err(e),
    };
    // a closing parenthesis may be left out at the end of the input
    if parse_token(toks, input, true).is_ok() {
        input = match parse_fixed_symbol(toks, input, Symbol::CloseParens) {
            Ok(p) => p,
            Err(e) => return Err(e),
        };
    } else {
        input = toks.len();
    }
    Ok((Expr::Parens(Box::new(inner)), input))
}

pub fn parse_backslash_lambda(toks: &[Token], pos: usize) -> (r: ParseResult)
    requires
        pos <= toks.len(),
    ensures
        lift(r) == grammar::backslash_lambda(toks@, pos as int),
        consumes(toks@, pos as int, r),
    decreases toks.len() - pos, 1int,
{
    let input = match parse_fixed_symbol(toks, pos, Symbol::Backslash) {
        Ok(p) => p,
        Err(e) => return Err(e),
    };
    if input < toks.len() {
        if let Token::Whitespace = &toks[input] {
            return Err(ParseError::UnexpectedWhitespace);
        }
    }
    let (ident, input) = match parse_ident(toks, input) {
        Ok((Expr::Ident(ident), p)) => (ident, p),
        Ok(_) => return Err(ParseError::ExpectedIdentifier),
        Err(e) => return Err(e),
    };
    let input = match parse_fixed_symbol(toks, input, Symbol::Dot) {
        Ok(p) => p,
        Err(e) => return Err(ParseError::ExpectedDotInLambda(Box::new(e))),
    };
    match parse_function(toks, input) {
        Ok((body, p)) => Ok((Expr::Fn(ident, Box::new(body)), p)),
        Err(e) => Err(e),
    }
}

pub fn parse_parens_or_literal(toks: &[Token], pos: usize) -> (r: ParseResult)
    requires
        pos <= toks.len(),
    ensures
        lift(r) == grammar::parens_or_literal(toks@, pos as int),
        consumes(toks@, pos as int, r),
    decreases toks.len() - pos, 2int,
{
    let i = match parse_token(toks, pos, true) {
        Ok(i) => i,
        Err(e) => return Err(e),
    };
    match &toks[i] {
        Token::Num(_) => parse_number(toks, pos),
        Token::Ident(_) => parse_ident(toks, pos),
        Token::StringLiteral(s) => Ok((Expr::Literal(Value::Str(s.clone())), i + 1)),
        Token::Symbol(Symbol::OpenParens) => parse_parens(toks, pos),
        Token::Symbol(Symbol::Backslash) => parse_backslash_lambda(toks, pos),
        Token::Symbol(s) => Err(ParseError::UnexpectedSymbol(*s)),
        Token::Whitespace => Err(ParseError::UnexpectedWhitespace),
    }
}

pub fn parse_factorial(toks: &[Token], pos: usize) -> (r: ParseResult)
    requires
        pos <= toks.len(),
    ensures
        lift(r) == grammar::factorial(toks@, pos as int),
        consumes(toks@, pos as int, r),
    decreases toks.len() - pos, 3int,
{
    let (mut res, mut input) = match parse_parens_or_literal(toks, pos) {
        Ok(x) => x,
        Err(e) => return Err(e),
    };
    let ghost start = input;
    let ghost first = res;
    loop
        invariant
            pos < start <= input <= toks.len(),
            grammar::factorial_loop(toks@, start as int, first) == grammar::factorial_loop(
                toks@,
                input as int,
                res,
            ),
        ensures
            grammar::factorial_loop(toks@, start as int, first) == (res, input as int),
            pos < input <= toks.len(),
        decreases toks.len() - input,
    {
        match parse_fixed_symbol(toks, input, Symbol::Factorial) {
            Ok(remaining) => {
                res = Expr::Factorial(Box::new(res));
                input = remaining;
            },
            Err(_) => break,
        }
    }
    Ok((res, input))
}

pub fn parse_power(toks: &[Token], pos: usize, allow_unary: bool) -> (r: ParseResult)
    requires
        pos <= toks.len(),
    ensures
        lift(r) == grammar::power(toks@, pos as int, allow_unary),
        consumes(toks@, pos as int, r),
    decreases toks.len() - pos, 5int,
{
    if allow_unary {
        if let Ok(remaining) = parse_fixed_symbol(toks, pos, Symbol::Sub) {
            return match parse_power(toks, remaining, true) {
                Ok((e, p)) => Ok((Expr::UnaryMinus(Box::new(e)), p)),
                Err(e) => Err(e),
            };
        }
        if let Ok(remaining) = parse_fixed_symbol(toks, pos, Symbol::Add) {
            return match parse_power(toks, remaining, true) {
                Ok((e, p)) => Ok((Expr::UnaryPlus(Box::new(e)), p)),
                Err(e) => Err(e),
            };
        }
        // /a^b reads as (1/a)^b, which equals 1/(a^b): the binding makes no difference
        if let Ok(remaining) = parse_fixed_symbol(toks, pos, Symbol::Div) {
            return match parse_power(toks, remaining, true) {
                Ok((e, p)) => Ok((Expr::UnaryDiv(Box::new(e)), p)),
                Err(e) => Err(e),
            };
        }
    }
    let (mut result, mut input) = match parse_factorial(toks, pos) {
        Ok(x) => x,
        Err(e) => return Err(e),
    };
    if let Ok(remaining) = parse_fixed_symbol(toks, input, Symbol::Pow) {
        let (rhs, p) = match parse_power(toks, remaining, true) {
            Ok(x) => x,
            Err(e) => return Err(e),
        };
        result = Expr::Bop(Bop::Pow, Box::new(result), Box::new(rhs));
        input = p;
    }
    Ok((result, input))
}

pub fn parse_apply_cont(toks: &[Token], pos: usize, lhs: &Expr) -> (r: ParseResult)
    requires
        pos <= toks.len(),
    ensures
        lift(r) == grammar::apply_cont(toks@, pos as int, *lhs),
        consumes(toks@, pos as int, r),
    decreases toks.len() - pos, 6int,
{
    let (rhs, input) = match parse_power(toks, pos, false) {
        Ok(x) => x,
        Err(e) => return Err(e),
    };
    match apply_shape(lhs, rhs) {
        Some(e) => Ok((e, input)),
        // left for a mixed fraction (1 2/3) or an implicit sum (6 feet 1 inch)
        None => Err(ParseError::InvalidApplyOperands),
    }
}

pub fn parse_mixed_fraction(toks: &[Token], pos: usize, lhs: &Expr) -> (r: ParseResult)
    requires
        pos <= toks.len(),
    ensures
        lift(r) == grammar::mixed_fraction(toks@, pos as int, *lhs),
        consumes(toks@, pos as int, r),
    decreases toks.len() - pos, 6int,
{
    let positive = match mixed_fraction_sign(lhs) {
        Some(s) => s,
        None => return Err(ParseError::InvalidMixedFraction),
    };
    let (top, input) = match parse_power(toks, pos, false) {
        Ok(x) => x,
        Err(e) => return Err(e),
    };
    if !is_number_literal(&top) {
        return Err(ParseError::InvalidMixedFraction);
    }
    let input = match parse_fixed_symbol(toks, input, Symbol::Div) {
        Ok(p) => p,
        Err(e) => return Err(e),
    };
    let (bottom, input) = match parse_power(toks, input, false) {
        Ok(x) => x,
        Err(e) => return Err(e),
    };
    if !is_number_literal(&bottom) {
        return Err(ParseError::InvalidMixedFraction);
    }
    let frac = Expr::Bop(Bop::Div, Box::new(top), Box::new(bottom));
    let result = match lhs {
        Expr::Bop(Bop::Mul, a, b) => Expr::Bop(
            Bop::Mul,
            Box::new(a.duplicate()),
            Box::new(signed_sum(positive, b.duplicate(), frac)),
        ),
        _ => signed_sum(positive, lhs.duplicate(), frac),
    };
    Ok((result, input))
}

pub fn parse_multiplication_cont(toks: &[Token], pos: usize) -> (r: ParseResult)
    requires
        pos <= toks.len(),
    ensures
        lift(r) == grammar::operator_cont(toks@, pos as int, Symbol::Mul),
        consumes(toks@, pos as int, r),
    decreases toks.len() - pos, 6int,
{
    match parse_fixed_symbol(toks, pos, Symbol::Mul) {
        Ok(p) => parse_power(toks, p, true),
        Err(e) => Err(e),
    }
}

pub fn parse_division_cont(toks: &[Token], pos: usize) -> (r: ParseResult)
    requires
        pos <= toks.len(),
    ensures
        lift(r) == grammar::operator_cont(toks@, pos as int, Symbol::Div),
        consumes(toks@, pos as int, r),
    decreases toks.len() - pos, 6int,
{
    match parse_fixed_symbol(toks, pos, Symbol::Div) {
        Ok(p) => parse_power(toks, p, true),
        Err(e) => Err(e),
    }
}

pub fn parse_modulo_cont(toks: &[Token], pos: usize) -> (r: ParseResult)
    requires
        pos <= toks.len(),
    ensures
        lift(r) == grammar::operator_cont(toks@, pos as int, Symbol::Mod),
        consumes(toks@, pos as int, r),
    decreases toks.len() - pos, 6int,
{
    match parse_fixed_symbol(toks, pos, Symbol::Mod) {
        Ok(p) => parse_power(toks, p, true),
        Err(e) => Err(e),
    }
}

/// The first continuation of a multiplicative chain that succeeds, in order:
/// `*`, `/`, `%`, a mixed fraction, an implicit application.
fn parse_multiplicative_step(toks: &[Token], pos: usize, res: &Expr) -> (r: Option<(Expr, usize)>)
    requires
        pos <= toks.len(),
    ensures
        lift_step(r) == grammar::multiplicative_step(toks@, pos as int, *res),
        r matches Some((_, p)) ==> pos < p <= toks.len(),
    decreases toks.len() - pos, 7int,
{
    if let Ok((term, p)) = parse_multiplication_cont(toks, pos) {
        return Some((Expr::Bop(Bop::Mul, Box::new(res.duplicate()), Box::new(term)), p));
    }
    if let Ok((term, p)) = parse_division_cont(toks, pos) {
        return Some((Expr::Bop(Bop::Div, Box::new(res.duplicate()), Box::new(term)), p));
    }
    if let Ok((term, p)) = parse_modulo_cont(toks, pos) {
        return Some((Expr::Bop(Bop::Mod, Box::new(res.duplicate()), Box::new(term)), p));
    }
    if let Ok((e, p)) = parse_mixed_fraction(toks, pos, res) {
        return Some((e, p));
    }
    if let Ok((e, p)) = parse_apply_cont(toks, pos, res) {
        return Some((e, p));
    }
    None
}

pub fn parse_multiplicative(toks: &[Token], pos: usize) -> (r: ParseResult)
    requires
        pos <= toks.len(),
    ensures
        lift(r) == grammar::multiplicative(toks@, pos as int),
        consumes(toks@, pos as int, r),
    decreases toks.len() - pos, 9int,
{
    let (mut res, mut input) = match parse_power(toks, pos, true) {
        Ok(x) => x,
        Err(e) => return Err(e),
    };
    let ghost start = input;
    let ghost first = res;
    loop
        invariant
            pos < start <= input <= toks.len(),
            grammar::multiplicative_loop(toks@, start as int, first)
                == grammar::multiplicative_loop(toks@, input as int, res),
        ensures
            grammar::multiplicative_loop(toks@, start as int, first) == (res, input as int),
            pos < input <= toks.len(),
        decreases toks.len() - input,
    {
        match parse_multiplicative_step(toks, input, &res) {
            Some((next, p)) => {
                res = next;
                input = p;
            },
            None => break,
        }
    }
    Ok((res, input))
}

pub fn parse_implicit_addition(toks: &[Token], pos: usize) -> (r: ParseResult)
    requires
        pos <= toks.len(),
    ensures
        lift(r) == grammar::implicit_addition(toks@, pos as int),
        consumes(toks@, pos as int, r),
    decreases toks.len() - pos, 10int,
{
    let (res, input) = match parse_multiplicative(toks, pos) {
        Ok(x) => x,
        Err(e) => return Err(e),
    };
    if let Ok((rhs, remaining)) = parse_implicit_addition(toks, input) {
        // n i n i, n i i n i i, ... (n: a number, i: an identifier)
        if joins_implicitly(&res, &rhs) {
            return Ok((Expr::Bop(Bop::ImplicitPlus, Box::new(res), Box::new(rhs)), remaining));
        }
    }
    Ok((res, input))
}

pub fn parse_addition_cont(toks: &[Token], pos: usize) -> (r: ParseResult)
    requires
        pos <= toks.len(),
    ensures
        lift(r) == grammar::additive_cont(toks@, pos as int, Symbol::Add),
        consumes(toks@, pos as int, r),
    decreases toks.len() - pos, 11int,
{
    match parse_fixed_symbol(toks, pos, Symbol::Add) {
        Ok(p) => parse_implicit_addition(toks, p),
        Err(e) => Err(e),
    }
}

pub fn parse_subtraction_cont(toks: &[Token], pos: usize) -> (r: ParseResult)
    requires
        pos <= toks.len(),
    ensures
        lift(r) == grammar::additive_cont(toks@, pos as int, Symbol::Sub),
        consumes(toks@, pos as int, r),
    decreases toks.len() - pos, 11int,
{
    match parse_fixed_symbol(toks, pos, Symbol::Sub) {
        Ok(p) => parse_implicit_addition(toks, p),
        Err(e) => Err(e),
    }
}

pub fn parse_to_cont(toks: &[Token], pos: usize) -> (r: ParseResult)
    requires
        pos <= toks.len(),
    ensures
        lift(r) == grammar::additive_cont(toks@, pos as int, Symbol::UnitConversion),
        consumes(toks@, pos as int, r),
    decreases toks.len() - pos, 11int,
{
    match parse_fixed_symbol(toks, pos, Symbol::UnitConversion) {
        Ok(p) => parse_implicit_addition(toks, p),
        Err(e) => Err(e),
    }
}

/// The first continuation of an additive chain that succeeds: `+`, `-`, a conversion.
fn parse_additive_step(toks: &[Token], pos: usize, res: &Expr) -> (r: Option<(Expr, usize)>)
    requires
        pos <= toks.len(),
    ensures
        lift_step(r) == grammar::additive_step(toks@, pos as int, *res),
        r matches Some((_, p)) ==> pos < p <= toks.len(),
    decreases toks.len() - pos, 12int,
{
    if let Ok((term, p)) = parse_addition_cont(toks, pos) {
        return Some((Expr::Bop(Bop::Plus, Box::new(res.duplicate()), Box::new(term)), p));
    }
    if let Ok((term, p)) = parse_subtraction_cont(toks, pos) {
        return Some((Expr::Bop(Bop::Minus, Box::new(res.duplicate()), Box::new(term)), p));
    }
    if let Ok((term, p)) = parse_to_cont(toks, pos) {
        return Some((Expr::As(Box::new(res.duplicate()), Box::new(term)), p));
    }
    None
}

pub fn parse_additive(toks: &[Token], pos: usize) -> (r: ParseResult)
    requires
        pos <= toks.len(),
    ensures
        lift(r) == grammar::additive(toks@, pos as int),
        consumes(toks@, pos as int, r),
    decreases toks.len() - pos, 14int,
{
    let (mut res, mut input) = match parse_implicit_addition(toks, pos) {
        Ok(x) => x,
        Err(e) => return Err(e),
    };
    let ghost start = input;
    let ghost first = res;
    loop
        invariant
            pos < start <= input <= toks.len(),
            grammar::additive_loop(toks@, start as int, first) == grammar::additive_loop(
                toks@,
                input as int,
                res,
            ),
        ensures
            grammar::additive_loop(toks@, start as int, first) == (res, input as int),
            pos < input <= toks.len(),
        decreases toks.len() - input,
    {
        match parse_additive_step(toks, input, &res) {
            Some((next, p)) => {
                res = next;
                input = p;
            },
            None => break,
        }
    }
    Ok((res, input))
}

pub fn parse_function(toks: &[Token], pos: usize) -> (r: ParseResult)
    requires
        pos <= toks.len(),
    ensures
        lift(r) == grammar::function(toks@, pos as int),
        consumes(toks@, pos as int, r),
    decreases toks.len() - pos, 15int,
{
    let (lhs, input) = match parse_additive(toks, pos) {
        Ok(x) => x,
        Err(e) => return Err(e),
    };
    if let Ok(remaining) = parse_fixed_symbol(toks, input, Symbol::Fn) {
        if let Expr::Ident(s) = lhs {
            return match parse_function(toks, remaining) {
                Ok((body, p)) => Ok((Expr::Fn(s, Box::new(body)), p)),
                Err(e) => Err(e),
            };
        }
        return Err(ParseError::ExpectedIdentifierAsArgument);
    }
    Ok((lhs, input))
}

pub fn parse_assignment(toks: &[Token], pos: usize) -> (r: ParseResult)
    requires
        pos <= toks.len(),
    ensures
        lift(r) == grammar::assignment(toks@, pos as int),
        consumes(toks@, pos as int, r),
    decreases toks.len() - pos, 16int,
{
    let (lhs, input) = match parse_function(toks, pos) {
        Ok(x) => x,
        Err(e) => return Err(e),
    };
    if let Ok(remaining) = parse_fixed_symbol(toks, input, Symbol::Equals) {
        if let Expr::Ident(s) = lhs {
            return match parse_assignment(toks, remaining) {
                Ok((rhs, p)) => Ok((Expr::Assign(s, Box::new(rhs)), p)),
                Err(e) => Err(e),
            };
        }
        return Err(ParseError::ExpectedIdentifierInAssignment);
    }
    Ok((lhs, input))
}

pub fn parse_statements(toks: &[Token], pos: usize) -> (r: ParseResult)
    requires
        pos <= toks.len(),
    ensures
        lift(r) == grammar::statements(toks@, pos as int),
        stays_inside(toks@, pos as int, r),
    decreases toks.len() - pos, 18int,
{
    let mut input = pos;
    loop
        invariant
            pos <= input <= toks.len(),
            grammar::statements(toks@, pos as int) == grammar::statements(toks@, input as int),
        ensures
            grammar::statements(toks@, pos as int) == grammar::statements(toks@, input as int),
            pos <= input <= toks.len(),
            grammar::fixed_symbol(toks@, input as int, Symbol::Semicolon) is Err,
        decreases toks.len() - input,
    {
        match parse_fixed_symbol(toks, input, Symbol::Semicolon) {
            Ok(remaining) => {
                input = remaining;
            },
            Err(_) => break,
        }
    }
    if parse_token(toks, input, true).is_err() {
        return Ok((Expr::Literal(Value::Unit), toks.len()));
    }
    let (mut result, mut input) = match parse_assignment(toks, input) {
        Ok(x) => x,
        Err(e) => return Err(e),
    };
    loop
        invariant
            pos < input <= toks.len(),
            grammar::statements(toks@, pos as int) == grammar::statements_loop(
                toks@,
                input as int,
                result,
            ),
        ensures
            grammar::statements(toks@, pos as int) == Ok::<(Expr, int), ParseError>(
                (result, input as int),
            ),
            pos < input <= toks.len(),
        decreases toks.len() - input,
    {
        let remaining = match parse_fixed_symbol(toks, input, Symbol::Semicolon) {
            Ok(p) => p,
            Err(_) => break,
        };
        // redundant separators are skipped, and so is a separator that only
        // whitespace follows
        let next = match parse_token(toks, remaining, true) {
            Ok(i) => i,
            Err(_) => {
                input = toks.len();
                break;
            },
        };
        if let Token::Symbol(Symbol::Semicolon) = &toks[next] {
            input = remaining;
            continue;
        }
        let (rhs, p) = match parse_assignment(toks, remaining) {
            Ok(x) => x,
            Err(e) => return Err(e),
        };
        result = Expr::Statements(Box::new(result), Box::new(rhs));
        input = p;
    }
    Ok((result, input))
}

pub fn parse_expression(toks: &[Token], pos: usize) -> (r: ParseResult)
    requires
        pos <= toks.len(),
    ensures
        lift(r) == grammar::expression(toks@, pos as int),
        stays_inside(toks@, pos as int, r),
    decreases toks.len() - pos, 19int,
{
    parse_statements(toks, pos)
}

/// Parses a whole token sequence. Fails where tokens are left over.
pub fn parse_tokens(toks: &[Token]) -> (r: Result<Expr, ParseError>)
    ensures
        r == grammar::parse(toks@),
{
    let (res, remaining) = match parse_expression(toks, 0) {
        Ok(x) => x,
        Err(e) => return Err(e),
    };
    if remaining != toks.len() {
        return Err(ParseError::UnexpectedInput);
    }
    Ok(res)
}

} // verus!
