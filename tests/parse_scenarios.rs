use fend_core::ast::{Bop, Expr, Value};
use fend_core::grammar::ParseError;
use fend_core::parser::{
    parse_apply_cont, parse_fixed_symbol, parse_mixed_fraction, parse_multiplicative,
    parse_number, parse_tokens,
};
use fend_core::token::{Ident, Number, Symbol, Token};

fn num(s: &str) -> Token {
    Token::Num(Number(s.to_string()))
}

fn id(s: &str) -> Token {
    Token::Ident(Ident(s.to_string()))
}

fn sym(s: Symbol) -> Token {
    Token::Symbol(s)
}

fn ws() -> Token {
    Token::Whitespace
}

fn lit(s: &str) -> Expr {
    Expr::Literal(Value::Num(Number(s.to_string())))
}

fn ident(s: &str) -> Expr {
    Expr::Ident(Ident(s.to_string()))
}

fn bop(op: Bop, a: Expr, b: Expr) -> Expr {
    Expr::Bop(op, Box::new(a), Box::new(b))
}

#[test]
fn power_is_right_associative() {
    let toks = vec![num("2"), sym(Symbol::Pow), num("3"), sym(Symbol::Pow), num("2")];
    let expected = bop(Bop::Pow, lit("2"), bop(Bop::Pow, lit("3"), lit("2")));
    assert_eq!(parse_tokens(&toks), Ok(expected));
}

#[test]
fn unary_minus_wraps_power() {
    let toks = vec![sym(Symbol::Sub), num("2"), sym(Symbol::Pow), num("2")];
    let expected = Expr::UnaryMinus(Box::new(bop(Bop::Pow, lit("2"), lit("2"))));
    assert_eq!(parse_tokens(&toks), Ok(expected));
}

#[test]
fn adjacent_numbers_are_rejected() {
    let toks = vec![num("2"), ws(), num("3")];
    assert_eq!(parse_apply_cont(&toks, 1, &lit("2")), Err(ParseError::InvalidApplyOperands));
    assert_eq!(parse_multiplicative(&toks, 0), Ok((lit("2"), 1)));
    assert_eq!(parse_tokens(&toks), Err(ParseError::UnexpectedInput));
}

#[test]
fn number_then_power_of_number_is_rejected() {
    let toks = vec![num("2"), ws(), num("3"), sym(Symbol::Pow), num("2")];
    assert_eq!(parse_apply_cont(&toks, 1, &lit("2")), Err(ParseError::InvalidApplyOperands));
}

#[test]
fn mixed_fraction() {
    let toks = vec![num("2"), ws(), num("3"), sym(Symbol::Div), num("4")];
    let expected = bop(Bop::Plus, lit("2"), bop(Bop::Div, lit("3"), lit("4")));
    assert_eq!(parse_tokens(&toks), Ok(expected));
}

#[test]
fn negative_mixed_fraction() {
    let toks = vec![sym(Symbol::Sub), num("2"), ws(), num("3"), sym(Symbol::Div), num("4")];
    let expected = bop(
        Bop::Minus,
        Expr::UnaryMinus(Box::new(lit("2"))),
        bop(Bop::Div, lit("3"), lit("4")),
    );
    assert_eq!(parse_tokens(&toks), Ok(expected));
}

#[test]
fn mixed_fraction_under_a_factor() {
    let toks = vec![
        num("3"),
        sym(Symbol::Mul),
        num("2"),
        ws(),
        num("1"),
        sym(Symbol::Div),
        num("2"),
    ];
    let expected = bop(
        Bop::Mul,
        lit("3"),
        bop(Bop::Plus, lit("2"), bop(Bop::Div, lit("1"), lit("2"))),
    );
    assert_eq!(parse_tokens(&toks), Ok(expected));
}

#[test]
fn mixed_fraction_needs_a_number_on_the_left() {
    let toks = vec![num("1"), sym(Symbol::Div), num("2")];
    assert_eq!(parse_mixed_fraction(&toks, 0, &ident("x")), Err(ParseError::InvalidMixedFraction));
    let toks = vec![id("y"), sym(Symbol::Div), num("2")];
    assert_eq!(parse_mixed_fraction(&toks, 0, &lit("1")), Err(ParseError::InvalidMixedFraction));
}

#[test]
fn prefix_unit() {
    let toks = vec![id("$"), num("5")];
    let expected = Expr::Apply(Box::new(ident("$")), Box::new(lit("5")));
    assert_eq!(parse_tokens(&toks), Ok(expected));
    let toks = vec![id("\u{a3}"), num("3")];
    let expected = Expr::Apply(Box::new(ident("\u{a3}")), Box::new(lit("3")));
    assert_eq!(parse_tokens(&toks), Ok(expected));
}

#[test]
fn prefix_unit_names() {
    assert!(Ident("$".to_string()).is_prefix_unit());
    assert!(Ident("\u{a5}".to_string()).is_prefix_unit());
    assert!(!Ident("sin".to_string()).is_prefix_unit());
    assert!(!Ident("$$".to_string()).is_prefix_unit());
}

#[test]
fn function_call_sugar() {
    let toks = vec![id("sin"), ws(), num("30")];
    let expected = Expr::ApplyFunctionCall(Box::new(ident("sin")), Box::new(lit("30")));
    assert_eq!(parse_tokens(&toks), Ok(expected));
}

#[test]
fn implicit_multiplication() {
    let toks = vec![num("2"), ws(), id("meters")];
    let expected = Expr::ApplyMul(Box::new(lit("2")), Box::new(ident("meters")));
    assert_eq!(parse_tokens(&toks), Ok(expected));
}

#[test]
fn implicit_multiplication_by_a_power() {
    let toks = vec![num("2"), ws(), id("x"), sym(Symbol::Pow), num("2")];
    let expected = Expr::ApplyMul(
        Box::new(lit("2")),
        Box::new(bop(Bop::Pow, ident("x"), lit("2"))),
    );
    assert_eq!(parse_tokens(&toks), Ok(expected));
}

#[test]
fn generic_application() {
    let toks = vec![id("f"), ws(), id("x")];
    let expected = Expr::Apply(Box::new(ident("f")), Box::new(ident("x")));
    assert_eq!(parse_tokens(&toks), Ok(expected));
}

#[test]
fn compound_quantity() {
    let toks = vec![num("6"), ws(), id("feet"), ws(), num("1"), ws(), id("inch")];
    let expected = bop(
        Bop::ImplicitPlus,
        Expr::ApplyMul(Box::new(lit("6")), Box::new(ident("feet"))),
        Expr::ApplyMul(Box::new(lit("1")), Box::new(ident("inch"))),
    );
    assert_eq!(parse_tokens(&toks), Ok(expected));
}

#[test]
fn backslash_lambda() {
    let toks = vec![sym(Symbol::Backslash), id("x"), sym(Symbol::Dot), id("x"), sym(Symbol::Add), num("1")];
    let expected = Expr::Fn(
        Ident("x".to_string()),
        Box::new(bop(Bop::Plus, ident("x"), lit("1"))),
    );
    assert_eq!(parse_tokens(&toks), Ok(expected));
}

#[test]
fn lambda_rejects_whitespace_before_parameter() {
    let toks = vec![sym(Symbol::Backslash), ws(), id("x"), sym(Symbol::Dot), id("x")];
    assert_eq!(parse_tokens(&toks), Err(ParseError::UnexpectedWhitespace));
}

#[test]
fn lambda_needs_a_dot() {
    let toks = vec![sym(Symbol::Backslash), id("x"), ws(), id("x")];
    assert_eq!(
        parse_tokens(&toks),
        Err(ParseError::ExpectedDotInLambda(Box::new(
            ParseError::FoundInvalidTokenWhileExpecting(Symbol::Dot)
        )))
    );
}

#[test]
fn lambda_needs_an_identifier() {
    let toks = vec![sym(Symbol::Backslash), num("2"), sym(Symbol::Dot), id("x")];
    assert_eq!(parse_tokens(&toks), Err(ParseError::ExpectedIdentifier));
}

#[test]
fn arrow_function_is_curried() {
    let toks = vec![id("a"), sym(Symbol::Fn), id("b"), sym(Symbol::Fn), id("a")];
    let expected = Expr::Fn(
        Ident("a".to_string()),
        Box::new(Expr::Fn(Ident("b".to_string()), Box::new(ident("a")))),
    );
    assert_eq!(parse_tokens(&toks), Ok(expected));
}

#[test]
fn arrow_function_needs_an_identifier() {
    let toks = vec![num("2"), sym(Symbol::Fn), num("3")];
    assert_eq!(parse_tokens(&toks), Err(ParseError::ExpectedIdentifierAsArgument));
}

#[test]
fn assignment_is_right_associative() {
    let toks = vec![
        id("a"),
        ws(),
        sym(Symbol::Equals),
        ws(),
        id("b"),
        ws(),
        sym(Symbol::Equals),
        ws(),
        num("3"),
    ];
    let expected = Expr::Assign(
        Ident("a".to_string()),
        Box::new(Expr::Assign(Ident("b".to_string()), Box::new(lit("3")))),
    );
    assert_eq!(parse_tokens(&toks), Ok(expected));
}

#[test]
fn assignment_needs_an_identifier() {
    let toks = vec![num("2"), sym(Symbol::Equals), num("3")];
    assert_eq!(parse_tokens(&toks), Err(ParseError::ExpectedIdentifierInAssignment));
}

#[test]
fn statements_skip_redundant_separators() {
    let semi = || sym(Symbol::Semicolon);
    let toks = vec![num("1"), semi(), semi(), num("2"), semi()];
    let expected = Expr::Statements(Box::new(lit("1")), Box::new(lit("2")));
    assert_eq!(parse_tokens(&toks), Ok(expected));
}

#[test]
fn empty_input_is_unit() {
    assert_eq!(parse_tokens(&[]), Ok(Expr::Literal(Value::Unit)));
    let semi = || sym(Symbol::Semicolon);
    assert_eq!(parse_tokens(&[semi(), semi(), semi()]), Ok(Expr::Literal(Value::Unit)));
}

#[test]
fn missing_close_paren_at_end() {
    let toks = vec![sym(Symbol::OpenParens), num("1"), sym(Symbol::Add), num("2")];
    let expected = Expr::Parens(Box::new(bop(Bop::Plus, lit("1"), lit("2"))));
    assert_eq!(parse_tokens(&toks), Ok(expected));
}

#[test]
fn empty_parens_are_unit() {
    let toks = vec![sym(Symbol::OpenParens), sym(Symbol::CloseParens)];
    assert_eq!(parse_tokens(&toks), Ok(Expr::Literal(Value::Unit)));
}

#[test]
fn lone_plus_is_an_error() {
    assert_eq!(parse_tokens(&[sym(Symbol::Add)]), Err(ParseError::ExpectedAToken));
}

#[test]
fn stray_close_paren_is_unexpected() {
    assert_eq!(
        parse_tokens(&[sym(Symbol::CloseParens)]),
        Err(ParseError::UnexpectedSymbol(Symbol::CloseParens))
    );
}

#[test]
fn repeated_factorial() {
    let f = || sym(Symbol::Factorial);
    let toks = vec![num("5"), f(), f(), f()];
    let expected = Expr::Factorial(Box::new(Expr::Factorial(Box::new(Expr::Factorial(
        Box::new(lit("5")),
    )))));
    assert_eq!(parse_tokens(&toks), Ok(expected));
}

#[test]
fn unary_division_and_plus() {
    let toks = vec![sym(Symbol::Div), id("a"), sym(Symbol::Pow), id("b")];
    let expected = Expr::UnaryDiv(Box::new(bop(Bop::Pow, ident("a"), ident("b"))));
    assert_eq!(parse_tokens(&toks), Ok(expected));
    let toks = vec![sym(Symbol::Add), num("2")];
    assert_eq!(parse_tokens(&toks), Ok(Expr::UnaryPlus(Box::new(lit("2")))));
}

#[test]
fn explicit_operators_chain_left() {
    let toks = vec![
        num("8"),
        sym(Symbol::Div),
        num("4"),
        sym(Symbol::Mul),
        num("2"),
        sym(Symbol::Mod),
        num("3"),
        sym(Symbol::Sub),
        num("1"),
        sym(Symbol::Add),
        num("5"),
    ];
    let product = bop(
        Bop::Mod,
        bop(Bop::Mul, bop(Bop::Div, lit("8"), lit("4")), lit("2")),
        lit("3"),
    );
    let expected = bop(Bop::Plus, bop(Bop::Minus, product, lit("1")), lit("5"));
    assert_eq!(parse_tokens(&toks), Ok(expected));
}

#[test]
fn conversion() {
    let toks = vec![num("1"), sym(Symbol::Add), num("2"), ws(), sym(Symbol::UnitConversion), ws(), id("hex")];
    let expected = Expr::As(
        Box::new(bop(Bop::Plus, lit("1"), lit("2"))),
        Box::new(ident("hex")),
    );
    assert_eq!(parse_tokens(&toks), Ok(expected));
}

#[test]
fn qualified_member() {
    let toks = vec![id("month"), ws(), sym(Symbol::Of), ws(), id("today")];
    let expected = Expr::Of(Ident("month".to_string()), Box::new(ident("today")));
    assert_eq!(parse_tokens(&toks), Ok(expected));
}

#[test]
fn string_literal() {
    let toks = vec![Token::StringLiteral("hi".to_string())];
    assert_eq!(parse_tokens(&toks), Ok(Expr::Literal(Value::Str("hi".to_string()))));
}

#[test]
fn fixed_symbol_errors() {
    let toks = vec![sym(Symbol::Add), id("x")];
    assert_eq!(parse_fixed_symbol(&toks, 0, Symbol::Add), Ok(1));
    assert_eq!(
        parse_fixed_symbol(&toks, 0, Symbol::Sub),
        Err(ParseError::ExpectedToken(Symbol::Add, Symbol::Sub))
    );
    assert_eq!(
        parse_fixed_symbol(&toks, 1, Symbol::Sub),
        Err(ParseError::FoundInvalidTokenWhileExpecting(Symbol::Sub))
    );
    assert_eq!(parse_fixed_symbol(&toks, 2, Symbol::Sub), Err(ParseError::ExpectedAToken));
}

#[test]
fn number_errors() {
    let toks = vec![ws(), num("7"), id("x")];
    assert_eq!(parse_number(&toks, 0), Ok((lit("7"), 2)));
    assert_eq!(parse_number(&toks, 2), Err(ParseError::ExpectedANumber));
}

#[test]
fn trailing_tokens_are_unexpected() {
    let toks = vec![num("1"), sym(Symbol::CloseParens)];
    assert_eq!(parse_tokens(&toks), Err(ParseError::UnexpectedInput));
}

#[test]
fn error_messages() {
    assert_eq!(
        ParseError::ExpectedToken(Symbol::Add, Symbol::CloseParens).message(),
        "found '+' while expecting ')'"
    );
    assert_eq!(
        ParseError::UnexpectedSymbol(Symbol::UnitConversion).message(),
        "expected a value, instead found 'to'"
    );
    assert_eq!(ParseError::ExpectedIdentifierInAssignment.message(), "expected an identifier");
    assert_eq!(
        ParseError::ExpectedDotInLambda(Box::new(ParseError::ExpectedAToken)).message(),
        "missing '.' in lambda (expected e.g. \\x.x)"
    );
}

#[test]
fn negated_identifier_then_number_is_a_call() {
    let toks = vec![sym(Symbol::Sub), id("x"), ws(), num("2")];
    let neg_x = Expr::UnaryMinus(Box::new(ident("x")));
    let expected = Expr::ApplyFunctionCall(Box::new(neg_x.duplicate()), Box::new(lit("2")));
    assert_eq!(parse_apply_cont(&toks, 2, &neg_x), Ok((expected, 4)));
}

#[test]
fn negated_identifier_then_power_of_number_applies() {
    let toks = vec![ws(), num("2"), sym(Symbol::Pow), num("3")];
    let neg_x = Expr::UnaryMinus(Box::new(ident("x")));
    let expected = Expr::Apply(
        Box::new(neg_x.duplicate()),
        Box::new(bop(Bop::Pow, lit("2"), lit("3"))),
    );
    assert_eq!(parse_apply_cont(&toks, 0, &neg_x), Ok((expected, 4)));
}

#[test]
fn negated_number_then_number_is_still_reserved() {
    let toks = vec![ws(), num("3")];
    let neg_two = Expr::UnaryMinus(Box::new(lit("2")));
    assert_eq!(parse_apply_cont(&toks, 0, &neg_two), Err(ParseError::InvalidApplyOperands));
}

#[test]
fn whitespace_after_last_separator() {
    let semi = || sym(Symbol::Semicolon);
    let toks = vec![num("1"), semi(), ws()];
    assert_eq!(parse_tokens(&toks), Ok(lit("1")));
    let toks = vec![num("1"), semi(), ws(), semi(), num("2")];
    let expected = Expr::Statements(Box::new(lit("1")), Box::new(lit("2")));
    assert_eq!(parse_tokens(&toks), Ok(expected));
    assert_eq!(parse_tokens(&[ws(), semi(), ws()]), Ok(Expr::Literal(Value::Unit)));
}

#[test]
fn missing_close_paren_before_trailing_whitespace() {
    let toks = vec![sym(Symbol::OpenParens), num("1"), sym(Symbol::Add), num("2"), ws()];
    let expected = Expr::Parens(Box::new(bop(Bop::Plus, lit("1"), lit("2"))));
    assert_eq!(parse_tokens(&toks), Ok(expected));
}
