use vstd::prelude::*;
use crate::computable::Computable;
use crate::context::Context;
use crate::error::{outcome, EvalError, Failure};
use crate::expression::Expression;
use crate::number::{arithmetic_is_total, Number, Operator};
use crate::semantics::admits;

verus! {

impl<'a, N: Number> Expression<'a, N> {
    /// Reduces the tree to one number, or to the first failure met.
    ///
    /// Children are evaluated before their parent and the left child before
    /// the right one. A function node is resolved in the function table and
    /// its callable is handed the unevaluated arguments and this same context.
    pub fn eval<F: Computable<N>>(&self, context: &Context<'_, N, F>) -> (result: Result<
        N,
        EvalError,
    >)
        requires
            arithmetic_is_total::<N>(),
        ensures
            admits(*self, context@, outcome(result)),
            *self matches Expression::Value(x) ==> result == Ok::<N, EvalError>(x),
            *self matches Expression::Variable(name) ==> outcome(result) == context@.variable(
                name@,
            ),
            *self matches Expression::Function(name, arguments) ==> match context@.function(name@) {
                Ok(function) => function.answers(arguments@, context@, outcome(result)),
                Err(_) => outcome(result) == Err::<N, Failure>(Failure::UnknownFunction(name@)),
            },
        decreases self,
    {
        let (operator, left, right) = match self {
            Expression::Value(x) => {
                return Ok(*x);
            },
            Expression::Variable(name) => {
                return context.lookup_variable(name);
            },
            Expression::Function(name, arguments) => {
                return match context.lookup_function(name) {
                    Ok(function) => function.compute(arguments.as_slice(), context),
                    Err(error) => Err(error),
                };
            },
            Expression::Add(left, right) => (Operator::Add, left, right),
            Expression::Subtract(left, right) => (Operator::Subtract, left, right),
            Expression::Multiply(left, right) => (Operator::Multiply, left, right),
            Expression::Divide(left, right) => (Operator::Divide, left, right),
        };
        assert(self.is_binary() && operator == self.operator());
        assert(**left == self.left() && **right == self.right());
        let x = left.eval(context)?;
        let y = right.eval(context)?;
        Ok(operator.apply(x, y))
    }
}

} // verus!
