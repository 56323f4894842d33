//! User predicate expressions: the small language of column/literal
//! comparisons and boolean connectives that the pruning engine compiles.

use vstd::prelude::*;
use crate::scalar::ScalarValue;

verus! {

/// Binary operators of the predicate language.
#[derive(Debug, Clone, Copy, PartialEq, Eq, Structural)]
pub enum Operator {
    Eq,
    Lt,
    LtEq,
    Gt,
    GtEq,
    And,
    Or,
    Modulo,
}

/// A predicate expression.
#[derive(Debug)]
pub enum Expr {
    /// A column referenced by name.
    Column(String),
    /// A constant.
    Literal(ScalarValue),
    /// A binary application.
    BinaryExpr { left: Box<Expr>, op: Operator, right: Box<Expr> },
}

/// A column reference.
pub fn col(name: &str) -> (r: Expr)
    ensures
        r matches Expr::Column(n) && n@ == name@,
{
    Expr::Column(name.to_owned())
}

/// A 32-bit integer literal.
pub fn lit_i32(v: i32) -> (r: Expr)
    ensures
        r == Expr::Literal(ScalarValue::Int32(Some(v))),
{
    Expr::Literal(ScalarValue::Int32(Some(v)))
}

/// A 64-bit integer literal.
pub fn lit_i64(v: i64) -> (r: Expr)
    ensures
        r == Expr::Literal(ScalarValue::Int64(Some(v))),
{
    Expr::Literal(ScalarValue::Int64(Some(v)))
}

/// A boolean literal.
pub fn lit_bool(v: bool) -> (r: Expr)
    ensures
        r == Expr::Literal(ScalarValue::Boolean(Some(v))),
{
    Expr::Literal(ScalarValue::Boolean(Some(v)))
}

impl Expr {
    /// `self > other`.
    pub fn gt(self, other: Expr) -> (r: Expr)
        ensures
            r == (Expr::BinaryExpr { left: Box::new(self), op: Operator::Gt, right: Box::new(other) }),
    {
        Expr::BinaryExpr { left: Box::new(self), op: Operator::Gt, right: Box::new(other) }
    }

    /// `self >= other`.
    pub fn gt_eq(self, other: Expr) -> (r: Expr)
        ensures
            r == (Expr::BinaryExpr {
                left: Box::new(self),
                op: Operator::GtEq,
                right: Box::new(other),
            }),
    {
        Expr::BinaryExpr { left: Box::new(self), op: Operator::GtEq, right: Box::new(other) }
    }

    /// `self < other`.
    pub fn lt(self, other: Expr) -> (r: Expr)
        ensures
            r == (Expr::BinaryExpr { left: Box::new(self), op: Operator::Lt, right: Box::new(other) }),
    {
        Expr::BinaryExpr { left: Box::new(self), op: Operator::Lt, right: Box::new(other) }
    }

    /// `self <= other`.
    pub fn lt_eq(self, other: Expr) -> (r: Expr)
        ensures
            r == (Expr::BinaryExpr {
                left: Box::new(self),
                op: Operator::LtEq,
                right: Box::new(other),
            }),
    {
        Expr::BinaryExpr { left: Box::new(self), op: Operator::LtEq, right: Box::new(other) }
    }

    /// `self = other`.
    pub fn eq(self, other: Expr) -> (r: Expr)
        ensures
            r == (Expr::BinaryExpr { left: Box::new(self), op: Operator::Eq, right: Box::new(other) }),
    {
        Expr::BinaryExpr { left: Box::new(self), op: Operator::Eq, right: Box::new(other) }
    }

    /// `self AND other`.
    pub fn and(self, other: Expr) -> (r: Expr)
        ensures
            r == (Expr::BinaryExpr {
                left: Box::new(self),
                op: Operator::And,
                right: Box::new(other),
            }),
    {
        Expr::BinaryExpr { left: Box::new(self), op: Operator::And, right: Box::new(other) }
    }

    /// `self OR other`.
    pub fn or(self, other: Expr) -> (r: Expr)
        ensures
            r == (Expr::BinaryExpr { left: Box::new(self), op: Operator::Or, right: Box::new(other) }),
    {
        Expr::BinaryExpr { left: Box::new(self), op: Operator::Or, right: Box::new(other) }
    }

    /// `self % other`.
    pub fn modulus(self, other: Expr) -> (r: Expr)
        ensures
            r == (Expr::BinaryExpr {
                left: Box::new(self),
                op: Operator::Modulo,
                right: Box::new(other),
            }),
    {
        Expr::BinaryExpr { left: Box::new(self), op: Operator::Modulo, right: Box::new(other) }
    }
}

} // verus!
