use vstd::prelude::*;
use crate::computable::Computable;
use crate::context::Bindings;
use crate::error::Failure;
use crate::expression::Expression;
use crate::number::Number;
use crate::semantics::{admits, outcomes};

verus! {

/// Whether nothing but the tree and the bindings decides the failures of an
/// evaluation: every callable that a function node of the tree reaches
/// through the bindings has at most one answer for the arguments of that node.
pub open spec fn callables_are_single_valued<N: Number, F: Computable<N>>(
    expression: Expression<'_, N>,
    bindings: Bindings<'_, N, F>,
) -> bool
    decreases expression,
{
    match expression {
        Expression::Value(_) => true,
        Expression::Variable(_) => true,
        Expression::Function(name, arguments) => match bindings.function(name@) {
            Ok(function) => forall|a: Result<N, Failure>, b: Result<N, Failure>|
                #![trigger function.answers(arguments@, bindings, a), function.answers(arguments@, bindings, b)]
                function.answers(arguments@, bindings, a) && function.answers(
                    arguments@,
                    bindings,
                    b,
                ) ==> a == b,
            Err(_) => true,
        },
        _ => callables_are_single_valued(expression.left(), bindings)
            && callables_are_single_valued(expression.right(), bindings),
    }
}

/// Whether every operator that occurs in the tree is bound to its
/// specification for the numbers `N`.
pub open spec fn operators_are_exact<N: Number>(expression: Expression<'_, N>) -> bool
    decreases expression,
{
    match expression {
        Expression::Value(_) => true,
        Expression::Variable(_) => true,
        Expression::Function(_, _) => true,
        _ => expression.operator().is_exact::<N>() && operators_are_exact(expression.left())
            && operators_are_exact(expression.right()),
    }
}

/// A literal evaluates to itself, whatever the bindings.
pub proof fn lemma_literal<N: Number, F: Computable<N>>(
    x: N,
    bindings: Bindings<'_, N, F>,
    out: Result<N, Failure>,
)
    ensures
        admits(Expression::Value(x), bindings, out) <==> out == Ok::<N, Failure>(x),
{
}

/// A variable evaluates to what the variable table holds for its name, and
/// fails with `UnknownVariable` of that name where the table holds nothing.
pub proof fn lemma_variable<N: Number, F: Computable<N>>(
    name: &str,
    bindings: Bindings<'_, N, F>,
    out: Result<N, Failure>,
)
    ensures
        admits(Expression::Variable(name), bindings, out) <==> out == (
        if bindings.variables.contains_key(name@) {
            Ok::<N, Failure>(bindings.variables[name@])
        } else {
            Err::<N, Failure>(Failure::UnknownVariable(name@))
        }),
{
}

/// A call of a name that the function table does not bind fails with
/// `UnknownFunction` of that name, whatever the arguments.
pub proof fn lemma_unbound_function<N: Number, F: Computable<N>>(
    expression: Expression<'_, N>,
    bindings: Bindings<'_, N, F>,
    out: Result<N, Failure>,
)
    requires
        expression matches Expression::Function(name, _) && !bindings.functions.contains_key(name@),
    ensures
        admits(expression, bindings, out) <==> out == Err::<N, Failure>(
            Failure::UnknownFunction(expression->Function_0@),
        ),
{
}

/// A binary node over two literals `a` and `b` never fails: it yields a
/// number, and where `N` binds the node's operator to its specification that
/// number is the specified sum, difference, product or quotient of `a` and
/// `b`. Division is no exception: a zero denominator is handed to the
/// division of `N` like any other.
pub proof fn lemma_operator_on_literals<N: Number, F: Computable<N>>(
    expression: Expression<'_, N>,
    bindings: Bindings<'_, N, F>,
    out: Result<N, Failure>,
)
    requires
        expression.is_binary(),
        expression.left() is Value,
        expression.right() is Value,
    ensures
        admits(expression, bindings, out) <==> (out matches Ok(z) && expression.operator().yields(
            expression.left()->Value_0,
            expression.right()->Value_0,
            z,
        )),
{
    let a = expression.left()->Value_0;
    let b = expression.right()->Value_0;
    assert(outcomes(expression.left(), bindings).contains(Ok::<N, Failure>(a)));
    assert(outcomes(expression.right(), bindings).contains(Ok::<N, Failure>(b)));
}

/// Evaluating one tree under the same bindings twice gives the same result.
///
/// Where the callables that the tree reaches have one answer each, two
/// evaluations fail alike or both yield a number; where the operators of the
/// tree are bound to their specifications as well, the two numbers are equal.
pub proof fn lemma_evaluation_is_repeatable<N: Number, F: Computable<N>>(
    expression: Expression<'_, N>,
    bindings: Bindings<'_, N, F>,
    first: Result<N, Failure>,
    second: Result<N, Failure>,
)
    requires
        callables_are_single_valued(expression, bindings),
        admits(expression, bindings, first),
        admits(expression, bindings, second),
    ensures
        first is Err ==> first == second,
        second is Err ==> first == second,
        operators_are_exact(expression) ==> first == second,
    decreases expression,
{
    if expression.is_binary() {
        let left = expression.left();
        let right = expression.right();
        let left_outcomes = outcomes(left, bindings);
        let right_outcomes = outcomes(right, bindings);
        let a1 = choose|a: Result<N, Failure>| #[trigger]
            left_outcomes.contains(a) && match a {
                Err(failure) => first == Err::<N, Failure>(failure),
                Ok(x) => exists|b: Result<N, Failure>| #[trigger]
                    right_outcomes.contains(b) && match b {
                        Err(failure) => first == Err::<N, Failure>(failure),
                        Ok(y) => first matches Ok(z) && expression.operator().yields(x, y, z),
                    },
            };
        let a2 = choose|a: Result<N, Failure>| #[trigger]
            left_outcomes.contains(a) && match a {
                Err(failure) => second == Err::<N, Failure>(failure),
                Ok(x) => exists|b: Result<N, Failure>| #[trigger]
                    right_outcomes.contains(b) && match b {
                        Err(failure) => second == Err::<N, Failure>(failure),
                        Ok(y) => second matches Ok(z) && expression.operator().yields(x, y, z),
                    },
            };
        lemma_evaluation_is_repeatable(left, bindings, a1, a2);
        if a1 is Ok && a2 is Ok {
            let x1 = a1->Ok_0;
            let x2 = a2->Ok_0;
            let b1 = choose|b: Result<N, Failure>| #[trigger]
                right_outcomes.contains(b) && match b {
                    Err(failure) => first == Err::<N, Failure>(failure),
                    Ok(y) => first matches Ok(z) && expression.operator().yields(x1, y, z),
                };
            let b2 = choose|b: Result<N, Failure>| #[trigger]
                right_outcomes.contains(b) && match b {
                    Err(failure) => second == Err::<N, Failure>(failure),
                    Ok(y) => second matches Ok(z) && expression.operator().yields(x2, y, z),
                };
            lemma_evaluation_is_repeatable(right, bindings, b1, b2);
        }
    }
}

} // verus!
