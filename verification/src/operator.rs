//! Operators: how one new observation for a state index advances the state.
use crate::actor::State;
use std::ops::Add;
use time::OffsetDateTime;
use vstd::prelude::*;
use vstd::std_specs::ops::AddSpec;

verus! {

/// Returned when an operator can not return a result.
#[derive(Debug, Clone)]
pub struct OpError {
    pub reason: String,
}

impl OpError {
    /// The text the error displays.
    pub fn to_display_string(&self) -> (r: String)
        ensures
            r@ == "unsuccessful operation: "@ + self.reason@,
    {
        let mut s = String::from_str("unsuccessful operation: ");
        s.append(self.reason.as_str());
        s
    }
}

/// The outcome of an operator or a gene.
pub type OperatorResult<T> = Result<T, OpError>;

/// `r` is a value that `a + b` can give: the sum for integers, and for other types
/// whatever their `Add` impl promises.
pub open spec fn is_sum<T: Add<Output = T>>(a: T, b: T, r: T) -> bool {
    call_ensures(T::add, (a, b), r)
}

/// `a + b`.
pub fn add_values<T: Add<Output = T>>(a: T, b: T) -> (r: T)
    requires
        a.add_req(b),
    ensures
        is_sum(a, b, r),
{
    a + b
}

/// The Operator encapsulates logic that operates on all new incoming data to
/// advance the state of the actor or DT
pub trait Operator<T: Add<Output = T>>: Sync + Send {
    /// What `apply` needs of its inputs.
    spec fn apply_requires(state: Map<i32, T>, idx: i32, value: T) -> bool;

    /// What `apply` returns.
    spec fn applied(state: Map<i32, T>, idx: i32, value: T, r: OperatorResult<T>) -> bool;

    /// The new value for `idx` once `value` is observed, given the actor's `state`.
    fn apply(state: &State<T>, idx: i32, value: T, datetime: OffsetDateTime) -> (r:
        OperatorResult<T>)
        requires
            Self::apply_requires(state@, idx, value),
        ensures
            Self::applied(state@, idx, value, r),
    ;
}

/// The simplest Operator is a gauge.  Every new observation replaces the
/// previously reported one for an index as the new current state for that index
pub struct Gauge {}

impl<T: Add<Output = T>> Operator<T> for Gauge {
    open spec fn apply_requires(state: Map<i32, T>, idx: i32, value: T) -> bool {
        true
    }

    open spec fn applied(state: Map<i32, T>, idx: i32, value: T, r: OperatorResult<T>) -> bool {
        r == Ok::<T, OpError>(value)
    }

    fn apply(state: &State<T>, idx: i32, value: T, datetime: OffsetDateTime) -> (r:
        OperatorResult<T>) {
        Ok(value)
    }
}

/// `Accumulator` sums all reports.  The current state for an accum index is the
/// sum of all previously reported values; an index not yet in the state starts
/// at the observed value.
pub struct Accumulator {}

impl<T: Add<Output = T> + Copy> Operator<T> for Accumulator {
    open spec fn apply_requires(state: Map<i32, T>, idx: i32, value: T) -> bool {
        state.contains_key(idx) ==> state[idx].add_req(value)
    }

    open spec fn applied(state: Map<i32, T>, idx: i32, value: T, r: OperatorResult<T>) -> bool {
        &&& r is Ok
        &&& state.contains_key(idx) ==> is_sum(state[idx], value, r->Ok_0)
        &&& !state.contains_key(idx) ==> r->Ok_0 == value
    }

    fn apply(state: &State<T>, idx: i32, value: T, datetime: OffsetDateTime) -> (r:
        OperatorResult<T>) {
        broadcast use vstd::std_specs::hash::group_hash_axioms;
        match state.get(&idx) {
            None => Ok(value),
            Some(old_val) => Ok(add_values(*old_val, value)),
        }
    }
}

} // verus!
