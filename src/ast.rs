use vstd::prelude::*;
use crate::token::{Ident, Number};

verus! {

/// Binary operators.
#[derive(Clone, Copy, Debug, PartialEq, Eq, Structural)]
pub enum Bop {
    Plus,
    ImplicitPlus,
    Minus,
    Mul,
    Div,
    Mod,
    Pow,
}

/// A literal value handed from primary parsing to the evaluator.
#[derive(Debug, PartialEq, Eq)]
pub enum Value {
    Num(Number),
    Str(String),
    Unit,
}

/// The syntax tree. Each node owns its children.
#[derive(Debug, PartialEq, Eq)]
pub enum Expr {
    Literal(Value),
    Ident(Ident),
    Parens(Box<Expr>),
    UnaryMinus(Box<Expr>),
    UnaryPlus(Box<Expr>),
    UnaryDiv(Box<Expr>),
    Factorial(Box<Expr>),
    Bop(Bop, Box<Expr>, Box<Expr>),
    Apply(Box<Expr>, Box<Expr>),
    ApplyFunctionCall(Box<Expr>, Box<Expr>),
    ApplyMul(Box<Expr>, Box<Expr>),
    As(Box<Expr>, Box<Expr>),
    Fn(Ident, Box<Expr>),
    Of(Ident, Box<Expr>),
    Assign(Ident, Box<Expr>),
    Statements(Box<Expr>, Box<Expr>),
}

impl Value {
    pub fn duplicate(&self) -> (r: Value)
        ensures
            r == *self,
    {
        match self {
            Value::Num(n) => Value::Num(n.duplicate()),
            Value::Str(s) => Value::Str(s.clone()),
            Value::Unit => Value::Unit,
        }
    }
}

impl Expr {
    /// A copy of the whole tree.
    pub fn duplicate(&self) -> (r: Expr)
        ensures
            r == *self,
        decreases self,
    {
        match self {
            Expr::Literal(v) => Expr::Literal(v.duplicate()),
            Expr::Ident(i) => Expr::Ident(i.duplicate()),
            Expr::Parens(a) => Expr::Parens(Box::new(a.duplicate())),
            Expr::UnaryMinus(a) => Expr::UnaryMinus(Box::new(a.duplicate())),
            Expr::UnaryPlus(a) => Expr::UnaryPlus(Box::new(a.duplicate())),
            Expr::UnaryDiv(a) => Expr::UnaryDiv(Box::new(a.duplicate())),
            Expr::Factorial(a) => Expr::Factorial(Box::new(a.duplicate())),
            Expr::Bop(op, a, b) => Expr::Bop(*op, Box::new(a.duplicate()), Box::new(b.duplicate())),
            Expr::Apply(a, b) => Expr::Apply(Box::new(a.duplicate()), Box::new(b.duplicate())),
            Expr::ApplyFunctionCall(a, b) => Expr::ApplyFunctionCall(
                Box::new(a.duplicate()),
                Box::new(b.duplicate()),
            ),
            Expr::ApplyMul(a, b) => Expr::ApplyMul(Box::new(a.duplicate()), Box::new(b.duplicate())),
            Expr::As(a, b) => Expr::As(Box::new(a.duplicate()), Box::new(b.duplicate())),
            Expr::Fn(i, a) => Expr::Fn(i.duplicate(), Box::new(a.duplicate())),
            Expr::Of(i, a) => Expr::Of(i.duplicate(), Box::new(a.duplicate())),
            Expr::Assign(i, a) => Expr::Assign(i.duplicate(), Box::new(a.duplicate())),
            Expr::Statements(a, b) => Expr::Statements(
                Box::new(a.duplicate()),
                Box::new(b.duplicate()),
            ),
        }
    }
}

} // verus!
