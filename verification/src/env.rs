//! The variable environment: the single global scope of active bindings.
//!
//! A binding list ordered by write time, viewed as a map from identifier
//! text to the current value: a later `let` or assignment to the same name
//! overwrites the prior binding, and lookup never invents a default.

use vstd::prelude::*;
use crate::error::ErrorModel;
use crate::error::EvalError;
use crate::value::Value;

verus! {

/// The map a binding list denotes: later entries overwrite earlier ones.
pub open spec fn bindings_map(entries: Seq<(String, Value)>) -> Map<Seq<char>, Value>
    decreases entries.len(),
{
    if entries.len() == 0 {
        Map::<Seq<char>, Value>::empty()
    } else {
        bindings_map(entries.drop_last()).insert(entries.last().0@, entries.last().1)
    }
}

/// The mutable mapping from variable name to current value. One evaluator
/// run owns exactly one environment; there is no shadowing and no inner
/// scope.
pub struct Environment {
    entries: Vec<(String, Value)>,
}

impl View for Environment {
    type V = Map<Seq<char>, Value>;

    closed spec fn view(&self) -> Map<Seq<char>, Value> {
        bindings_map(self.entries@)
    }
}

impl Environment {
    /// Creates an empty environment: no name is bound.
    pub fn new() -> (env: Environment)
        ensures
            env@ == Map::<Seq<char>, Value>::empty(),
    {
        Environment { entries: Vec::new() }
    }

    /// Inserts or overwrites a binding unconditionally. No error case.
    pub fn define(&mut self, name: String, value: Value)
        ensures
            final(self)@ == old(self)@.insert(name@, value),
    {
        let ghost before = self.entries@;
        self.entries.push((name, value));
        proof {
            assert(self.entries@.drop_last() =~= before);
        }
    }

    /// Writes a binding from an assignment expression: the same underlying
    /// operation as [`Environment::define`], distinguished only because
    /// assignment is an expression and may appear nested in another one.
    pub fn assign(&mut self, name: String, value: Value)
        ensures
            final(self)@ == old(self)@.insert(name@, value),
    {
        self.define(name, value);
    }

    /// Looks a name up: the current value if any `let` or assignment has
    /// bound it, and the fatal `UndefinedVariable` error otherwise. Never
    /// returns a default value.
    pub fn lookup(&self, name: &String) -> (r: Result<Value, EvalError>)
        ensures
            self@.contains_key(name@) ==> r == Ok::<Value, EvalError>(self@[name@]),
            !self@.contains_key(name@) ==> (r matches Err(e) && e@ == ErrorModel::UndefinedVariable(
                name@,
            )),
    {
        let mut i = self.entries.len();
        proof {
            assert(self.entries@.take(i as int) =~= self.entries@);
        }
        while i > 0
            invariant
                i <= self.entries@.len(),
                bindings_map(self.entries@).contains_key(name@) == bindings_map(
                    self.entries@.take(i as int),
                ).contains_key(name@),
                bindings_map(self.entries@).contains_key(name@) ==> bindings_map(
                    self.entries@.take(i as int),
                )[name@] == bindings_map(self.entries@)[name@],
            decreases i,
        {
            i = i - 1;
            proof {
                assert(self.entries@.take(i + 1).drop_last() =~= self.entries@.take(i as int));
                assert(self.entries@.take(i + 1).last() == self.entries@[i as int]);
            }
            if self.entries[i].0 == *name {
                return Ok(self.entries[i].1);
            }
        }
        proof {
            assert(self.entries@.take(0) =~= Seq::<(String, Value)>::empty());
        }
        Err(EvalError::UndefinedVariable(name.clone()))
    }
}

} // verus!
