use vstd::prelude::*;
use vstd::hash_map::StringHashMap;
use crate::error::{EvalError, Failure};

verus! {

/// The mathematical content of a [`Context`]: two independent maps from names
/// to values and to the callables that stand behind function names.
pub ghost struct Bindings<'a, N, F> {
    pub variables: Map<Seq<char>, N>,
    pub functions: Map<Seq<char>, &'a F>,
}

impl<'a, N, F> Bindings<'a, N, F> {
    /// What looking up the variable `name` gives.
    pub open spec fn variable(self, name: Seq<char>) -> Result<N, Failure> {
        if self.variables.contains_key(name) {
            Ok(self.variables[name])
        } else {
            Err(Failure::UnknownVariable(name))
        }
    }

    /// What looking up the function `name` gives.
    pub open spec fn function(self, name: Seq<char>) -> Result<&'a F, Failure> {
        if self.functions.contains_key(name) {
            Ok(self.functions[name])
        } else {
            Err(Failure::UnknownFunction(name))
        }
    }
}

/// The environment of an evaluation: the variables and the functions that a
/// formula may name. The context refers to its callables and does not own
/// them, so one callable can serve many contexts.
#[verifier::reject_recursive_types(N)]
#[verifier::reject_recursive_types(F)]
pub struct Context<'a, N, F> {
    variable_repository: StringHashMap<N>,
    function_repository: StringHashMap<&'a F>,
}

impl<'a, N, F> View for Context<'a, N, F> {
    type V = Bindings<'a, N, F>;

    closed spec fn view(&self) -> Bindings<'a, N, F> {
        Bindings { variables: self.variable_repository@, functions: self.function_repository@ }
    }
}

impl<'a, N: Copy, F> Context<'a, N, F> {
    /// A context that binds nothing.
    pub fn new() -> (context: Self)
        ensures
            context@.variables == Map::<Seq<char>, N>::empty(),
            context@.functions == Map::<Seq<char>, &'a F>::empty(),
    {
        Context { variable_repository: StringHashMap::new(), function_repository: StringHashMap::new() }
    }

    /// Binds the variable `name` to `value`, in place of an earlier binding of
    /// that name if there is one. The functions are left alone.
    pub fn bind_variable(&mut self, name: &str, value: N)
        ensures
            final(self)@.variables == old(self)@.variables.insert(name@, value),
            final(self)@.functions == old(self)@.functions,
    {
        self.variable_repository.insert(name.to_string(), value);
    }

    /// Binds the function `name` to `function`, in place of an earlier binding
    /// of that name if there is one. The variables are left alone.
    pub fn bind_function(&mut self, name: &str, function: &'a F)
        ensures
            final(self)@.functions == old(self)@.functions.insert(name@, function),
            final(self)@.variables == old(self)@.variables,
    {
        self.function_repository.insert(name.to_string(), function);
    }

    /// The value bound to the variable `name`, or `UnknownVariable(name)` when
    /// the variable table has no such name.
    pub fn lookup_variable(&self, name: &str) -> (result: Result<N, EvalError>)
        ensures
            crate::error::outcome(result) == self@.variable(name@),
    {
        match self.variable_repository.get(name) {
            Some(value) => Ok(*value),
            None => Err(EvalError::UnknownVariable(name.to_string())),
        }
    }

    /// The callable bound to the function `name`, or `UnknownFunction(name)`
    /// when the function table has no such name.
    pub fn lookup_function(&self, name: &str) -> (result: Result<&'a F, EvalError>)
        ensures
            match result {
                Ok(function) => self@.function(name@) == Ok::<&'a F, Failure>(function),
                Err(error) => self@.function(name@) == Err::<&'a F, Failure>(error@),
            },
    {
        match self.function_repository.get(name) {
            Some(function) => Ok(*function),
            None => Err(EvalError::UnknownFunction(name.to_string())),
        }
    }
}

} // verus!
