use vstd::prelude::*;
use crate::context::{Bindings, Context};
use crate::error::{outcome, EvalError, Failure};
use crate::expression::Expression;
use crate::number::{arithmetic_is_total, Number};
use crate::semantics::outcomes;

verus! {

/// A named function of the formula language: the one way to extend the
/// language without touching the evaluator.
///
/// A callable is handed the arguments of the call as they stand in the tree,
/// not their values, together with the context of the evaluation. It may
/// evaluate them in any order, more than once or not at all, and it checks
/// for itself that it can accept them.
pub trait Computable<N>: Sized {
    /// Whether this callable may answer `out` when it is handed `arguments`
    /// and `bindings`. An implementation that says nothing may answer
    /// anything; one that says more is held to it, and the evaluator relies
    /// on nothing else.
    open spec fn answers(
        &self,
        arguments: Seq<Expression<'_, N>>,
        bindings: Bindings<'_, N, Self>,
        out: Result<N, Failure>,
    ) -> bool {
        true
    }

    /// Computes the value of a call, or fails: with `ArityMismatch` where the
    /// arguments are not what the callable accepts, or as the evaluation of
    /// an argument failed.
    fn compute(&self, arguments: &[Expression<'_, N>], context: &Context<'_, N, Self>) -> (result:
        Result<N, EvalError>)
        ensures
            self.answers(arguments@, context@, outcome(result)),
    ;
}

/// The outcomes of a call of a function of one argument: `ArityMismatch`
/// unless there is exactly one argument, else a failure of evaluating that
/// argument, else what `function` may return for its value.
pub open spec fn unary_outcomes<N: Number, F: Computable<N>, G: Fn(N) -> N>(
    arguments: Seq<Expression<'_, N>>,
    bindings: Bindings<'_, N, F>,
    function: G,
) -> Set<Result<N, Failure>> {
    if arguments.len() == 1 {
        Set::new(
            |out: Result<N, Failure>|
                exists|a: Result<N, Failure>| #[trigger]
                    outcomes(arguments[0], bindings).contains(a) && match a {
                        Err(failure) => out == Err::<N, Failure>(failure),
                        Ok(x) => out matches Ok(y) && call_ensures(function, (x,), y),
                    },
        )
    } else {
        set![Err::<N, Failure>(Failure::ArityMismatch)]
    }
}

/// The body of a callable of one argument, such as the exponential: checks
/// that there is exactly one argument, evaluates it in `context` and applies
/// `function` to its value.
pub fn compute_unary<N: Number, F: Computable<N>, G: Fn(N) -> N>(
    arguments: &[Expression<'_, N>],
    context: &Context<'_, N, F>,
    function: G,
) -> (result: Result<N, EvalError>)
    requires
        arithmetic_is_total::<N>(),
        forall|x: N| call_requires(function, (x,)),
    ensures
        unary_outcomes(arguments@, context@, function).contains(outcome(result)),
        arguments@.len() != 1 ==> result == Err::<N, EvalError>(EvalError::ArityMismatch),
{
    if arguments.len() != 1 {
        return Err(EvalError::ArityMismatch);
    }
    match arguments[0].eval(context) {
        Ok(x) => Ok(function(x)),
        Err(error) => Err(error),
    }
}

} // verus!
