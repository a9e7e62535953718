use vstd::prelude::*;
use crate::computable::Computable;
use crate::context::Bindings;
use crate::error::Failure;
use crate::expression::Expression;
use crate::number::{Number, Operator};

verus! {

/// The outcomes of evaluating two operands in order and applying `operator`:
/// a failure of the first operand, or else a failure of the second, or else
/// what the operator may make of the two numbers.
pub open spec fn in_sequence<N: Number>(
    operator: Operator,
    first: Set<Result<N, Failure>>,
    second: Set<Result<N, Failure>>,
) -> Set<Result<N, Failure>> {
    Set::new(
        |out: Result<N, Failure>|
            exists|a: Result<N, Failure>| #[trigger]
                first.contains(a) && match a {
                    Err(failure) => out == Err::<N, Failure>(failure),
                    Ok(x) => exists|b: Result<N, Failure>| #[trigger]
                        second.contains(b) && match b {
                            Err(failure) => out == Err::<N, Failure>(failure),
                            Ok(y) => out matches Ok(z) && operator.yields(x, y, z),
                        },
                },
    )
}

/// The outcomes that evaluating `expression` under `bindings` may have.
///
/// A literal yields itself and a variable what the variable table holds for
/// its name. A binary node evaluates its left child, then its right child,
/// stops at the first failure and otherwise applies its operator. A function
/// node fails when its name is unbound; otherwise its outcomes are the answers
/// of the bound callable for the arguments as they stand in the tree and for
/// these same bindings.
pub open spec fn outcomes<N: Number, F: Computable<N>>(
    expression: Expression<'_, N>,
    bindings: Bindings<'_, N, F>,
) -> Set<Result<N, Failure>>
    decreases expression,
{
    match expression {
        Expression::Value(x) => set![Ok::<N, Failure>(x)],
        Expression::Variable(name) => set![bindings.variable(name@)],
        Expression::Function(name, arguments) => match bindings.function(name@) {
            Ok(function) => Set::new(
                |out: Result<N, Failure>| function.answers(arguments@, bindings, out),
            ),
            Err(failure) => set![Err::<N, Failure>(failure)],
        },
        _ => in_sequence(
            expression.operator(),
            outcomes(expression.left(), bindings),
            outcomes(expression.right(), bindings),
        ),
    }
}

/// Whether evaluating `expression` under `bindings` may end in `out`.
pub open spec fn admits<N: Number, F: Computable<N>>(
    expression: Expression<'_, N>,
    bindings: Bindings<'_, N, F>,
    out: Result<N, Failure>,
) -> bool {
    outcomes(expression, bindings).contains(out)
}

} // verus!
