use vstd::prelude::*;
use vstd::std_specs::ops::{AddSpec, DivSpec, MulSpec, SubSpec};
use core::ops::{Add, Div, Mul, Sub};

verus! {

/// What a type needs to serve as the numbers of a formula: its values are
/// copied freely and closed under the four operators.
pub trait Number: Copy + Add<Output = Self> + Sub<Output = Self> + Mul<Output = Self> + Div<
    Output = Self,
> {

}

impl<T> Number for T where
    T: Copy + Add<Output = T> + Sub<Output = T> + Mul<Output = T> + Div<Output = T>,
 {

}

/// The four binary operators of the formula language.
#[derive(Debug, Clone, Copy, PartialEq, Eq)]
pub enum Operator {
    Add,
    Subtract,
    Multiply,
    Divide,
}

impl Operator {
    /// Whether `N` lets the operator be applied to `x` and `y`.
    pub open spec fn accepts<N: Number>(self, x: N, y: N) -> bool {
        match self {
            Operator::Add => x.add_req(y),
            Operator::Subtract => x.sub_req(y),
            Operator::Multiply => x.mul_req(y),
            Operator::Divide => x.div_req(y),
        }
    }

    /// What the specification of the operator gives for `x` and `y`.
    pub open spec fn result<N: Number>(self, x: N, y: N) -> N {
        match self {
            Operator::Add => x.add_spec(y),
            Operator::Subtract => x.sub_spec(y),
            Operator::Multiply => x.mul_spec(y),
            Operator::Divide => x.div_spec(y),
        }
    }

    /// Whether the operator of `N` is bound to its specification.
    pub open spec fn is_exact<N: Number>(self) -> bool {
        match self {
            Operator::Add => N::obeys_add_spec(),
            Operator::Subtract => N::obeys_sub_spec(),
            Operator::Multiply => N::obeys_mul_spec(),
            Operator::Divide => N::obeys_div_spec(),
        }
    }

    /// Whether `z` may come out when the operator is applied to `x` and `y`:
    /// where `N` binds the operator to its specification, only the specified
    /// result may.
    pub open spec fn yields<N: Number>(self, x: N, y: N, z: N) -> bool {
        self.is_exact::<N>() ==> z == self.result(x, y)
    }

    /// Applies the operator to `x` and `y`, in this order.
    pub fn apply<N: Number>(self, x: N, y: N) -> (z: N)
        requires
            self.accepts(x, y),
        ensures
            self.yields(x, y, z),
    {
        match self {
            Operator::Add => x + y,
            Operator::Subtract => x - y,
            Operator::Multiply => x * y,
            Operator::Divide => x / y,
        }
    }
}

/// Every pair of numbers may be added, subtracted, multiplied and divided:
/// no operator of `N` has a precondition that some operands fail.
pub open spec fn arithmetic_is_total<N: Number>() -> bool {
    forall|operator: Operator, x: N, y: N| #[trigger] operator.accepts(x, y)
}

} // verus!
