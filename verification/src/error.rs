use vstd::prelude::*;

verus! {

/// The reason an evaluation stopped without a number.
#[derive(Debug, PartialEq, Eq)]
pub enum EvalError {
    /// A variable node names something the variable table does not bind.
    UnknownVariable(String),
    /// A function node names something the function table does not bind.
    UnknownFunction(String),
    /// A callable was handed an argument list it cannot accept.
    ArityMismatch,
}

/// The mathematical content of an [`EvalError`]: names are sequences of
/// characters.
pub ghost enum Failure {
    UnknownVariable(Seq<char>),
    UnknownFunction(Seq<char>),
    ArityMismatch,
}

impl View for EvalError {
    type V = Failure;

    open spec fn view(&self) -> Failure {
        match self {
            EvalError::UnknownVariable(name) => Failure::UnknownVariable(name@),
            EvalError::UnknownFunction(name) => Failure::UnknownFunction(name@),
            EvalError::ArityMismatch => Failure::ArityMismatch,
        }
    }
}

/// What an evaluation result says once names are read as sequences of
/// characters.
pub open spec fn outcome<N>(result: Result<N, EvalError>) -> Result<N, Failure> {
    match result {
        Ok(value) => Ok(value),
        Err(error) => Err(error@),
    }
}

} // verus!
