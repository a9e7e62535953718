//! A verified evaluator for arithmetic expression trees.
//!
//! A formula is a tree of literals, variables, the four binary operators and
//! calls of named functions. Evaluating a tree against a [`Context`] reduces it
//! to one number or to the first failure met on the way. The numeric type is a
//! parameter: anything that can be copied, added, subtracted, multiplied and
//! divided will do, and the contracts speak of its arithmetic through the
//! specifications that `vstd` attaches to the operator traits.

pub mod computable;
pub mod context;
pub mod error;
pub mod evaluator;
pub mod expression;
pub mod laws;
pub mod number;
pub mod semantics;

pub use computable::{compute_unary, Computable};
pub use context::{Bindings, Context};
pub use error::{EvalError, Failure};
pub use expression::Expression;
pub use number::{Number, Operator};
