use vstd::prelude::*;
use crate::number::Operator;

verus! {

/// A formula: an immutable tree in which every node owns its children.
///
/// `N` is the numeric type of literals and results. Names are compared by
/// their characters.
pub enum Expression<'a, N> {
    /// A literal number.
    Value(N),
    /// A name to resolve in the variable table when the tree is evaluated.
    Variable(&'a str),
    /// The sum of the left and the right child.
    Add(Box<Expression<'a, N>>, Box<Expression<'a, N>>),
    /// The left child minus the right child.
    Subtract(Box<Expression<'a, N>>, Box<Expression<'a, N>>),
    /// The product of the left and the right child.
    Multiply(Box<Expression<'a, N>>, Box<Expression<'a, N>>),
    /// The numerator divided by the denominator.
    Divide(Box<Expression<'a, N>>, Box<Expression<'a, N>>),
    /// A call of the function bound to the name, with its arguments in order.
    /// The arguments are handed to the function as they stand.
    Function(&'a str, Vec<Expression<'a, N>>),
}

impl<'a, N> Expression<'a, N> {
    /// Whether the node is one of the four binary operators.
    pub open spec fn is_binary(self) -> bool {
        self is Add || self is Subtract || self is Multiply || self is Divide
    }

    /// The operator of a binary node.
    pub open spec fn operator(self) -> Operator {
        match self {
            Expression::Subtract(_, _) => Operator::Subtract,
            Expression::Multiply(_, _) => Operator::Multiply,
            Expression::Divide(_, _) => Operator::Divide,
            _ => Operator::Add,
        }
    }

    /// The left child of a binary node, which is evaluated first.
    pub open spec fn left(self) -> Expression<'a, N> {
        match self {
            Expression::Add(left, _) => *left,
            Expression::Subtract(left, _) => *left,
            Expression::Multiply(left, _) => *left,
            Expression::Divide(left, _) => *left,
            _ => self,
        }
    }

    /// The right child of a binary node, which is evaluated second.
    pub open spec fn right(self) -> Expression<'a, N> {
        match self {
            Expression::Add(_, right) => *right,
            Expression::Subtract(_, right) => *right,
            Expression::Multiply(_, right) => *right,
            Expression::Divide(_, right) => *right,
            _ => self,
        }
    }
}

} // verus!
