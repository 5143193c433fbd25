//! Operators with their own error type, and the gauge-and-accumulator gene that leaves
//! the state as it was for a message that is not an observation.
use crate::actor::State;
use crate::gene::{all_supported, observations_applied, sums_defined, unsupported_idx, unsupported_idx_reason, OpKind, OperatorLayout, TimeScope};
use crate::message::Message;
use crate::operator::is_sum;
use std::collections::HashMap;
use std::ops::Add;
use time::OffsetDateTime;
use vstd::prelude::*;
use vstd::std_specs::ops::AddSpec;

verus! {

/// Returned when an operator can not return a result.
#[derive(Debug, Clone)]
pub struct OperatorError {
    reason: String,
}

impl OperatorError {
    /// Why the operation failed.
    pub closed spec fn reason_text(&self) -> Seq<char> {
        self.reason@
    }

    /// The text the error displays.
    pub fn to_display_string(&self) -> (r: String)
        ensures
            r@ == "unsuccessful operation: "@ + self.reason_text(),
    {
        let mut s = String::from_str("unsuccessful operation: ");
        s.append(self.reason.as_str());
        s
    }
}

/// The outcome of an operator or a gene of this module.
pub type OperatorResult<T> = Result<T, OperatorError>;

/// The Operator encapsulates logic that operates on all new incoming data to
/// advance the state of the actor or DT
pub trait Operator<T: Add<Output = T> + Copy> {
    /// What `apply` needs of its inputs.
    spec fn apply_requires(state: Map<i32, T>, idx: i32, value: T) -> bool;

    /// What `apply` returns.
    spec fn applied(state: Map<i32, T>, idx: i32, value: T, r: OperatorResult<T>) -> bool;

    /// The new value for `idx` once `value` is observed, given the actor's `state`.
    fn apply(state: &State<T>, idx: i32, value: T, datetime: OffsetDateTime) -> (r:
        OperatorResult<T>)
        requires
            Self::apply_requires(state@, idx, value),
        ensures
            Self::applied(state@, idx, value, r),
    ;
}

/// The simplest Operator is a gauge.  Every new observation replaces the
/// previously reported one for an index as the new current state for that index
pub struct GuageOperator {}

impl<T: Add<Output = T> + Copy> Operator<T> for GuageOperator {
    open spec fn apply_requires(state: Map<i32, T>, idx: i32, value: T) -> bool {
        true
    }

    open spec fn applied(state: Map<i32, T>, idx: i32, value: T, r: OperatorResult<T>) -> bool {
        r == Ok::<T, OperatorError>(value)
    }

    fn apply(state: &State<T>, idx: i32, value: T, datetime: OffsetDateTime) -> (r:
        OperatorResult<T>) {
        Ok(value)
    }
}

/// `AccumOperator` sums all reports.  The current state for an accum index is the
/// sum of all previously reported values; the first report of an index is its value.
pub struct AccumOperator {}

impl<T: Add<Output = T> + Copy> Operator<T> for AccumOperator {
    open spec fn apply_requires(state: Map<i32, T>, idx: i32, value: T) -> bool {
        state.contains_key(idx) ==> state[idx].add_req(value)
    }

    open spec fn applied(state: Map<i32, T>, idx: i32, value: T, r: OperatorResult<T>) -> bool {
        &&& r is Ok
        &&& state.contains_key(idx) ==> is_sum(state[idx], value, r->Ok_0)
        &&& !state.contains_key(idx) ==> r->Ok_0 == value
    }

    fn apply(state: &State<T>, idx: i32, value: T, datetime: OffsetDateTime) -> (r:
        OperatorResult<T>) {
        broadcast use vstd::std_specs::hash::group_hash_axioms;
        match state.get(&idx) {
            None => Ok(value),
            Some(old_val) => Ok(crate::operator::add_values(*old_val, value)),
        }
    }
}

/// What applying the gene's layout to `update` in `state` returns: for observations,
/// the new state where every observed index has an operator, and otherwise an error
/// naming one that has none; any other message leaves the state as it was.
pub open spec fn kept_or_applied<T: Add<Output = T>>(
    layout: OperatorLayout,
    state: Map<i32, T>,
    update: Message<T>,
    r: OperatorResult<State<T>>,
) -> bool {
    match update {
        Message::Observations { values, .. } => {
            &&& (r is Ok <==> all_supported(layout, values@))
            &&& (r matches Ok(ns) ==> observations_applied(layout, state, values@, ns@))
            &&& (r matches Err(e) ==> exists|k: i32|
                #![trigger layout.kind_of(k)]
                values@.contains_key(k) && layout.kind_of(k) is None && e.reason_text()
                    == unsupported_idx_reason(k))
        },
        _ => r matches Ok(ns) && ns@ == state,
    }
}

/// The error for an index without an operator.
fn unsupported(idx: i32) -> (e: OperatorError)
    ensures
        e.reason_text() == unsupported_idx_reason(idx),
{
    OperatorError { reason: unsupported_idx(idx).reason }
}

/// Applies the operators of `layout` (`GuageOperator`, `AccumOperator`) to every
/// observation in `values`, stopping at the first index without an operator.
pub fn apply_operator_layout<T: Add<Output = T> + Copy>(
    layout: &OperatorLayout,
    state: State<T>,
    values: &HashMap<i32, T>,
    datetime: OffsetDateTime,
) -> (r: OperatorResult<State<T>>)
    requires
        sums_defined(*layout, state@, values@),
    ensures
        r is Ok <==> all_supported(*layout, values@),
        r matches Ok(ns) ==> observations_applied(*layout, state@, values@, ns@),
        r matches Err(e) ==> exists|k: i32|
            #![trigger layout.kind_of(k)]
            values@.contains_key(k) && layout.kind_of(k) is None && e.reason_text()
                == unsupported_idx_reason(k),
{
    broadcast use vstd::std_specs::hash::group_hash_axioms;
    let ghost old = state@;
    let mut cur = state;
    let ghost mut done: Set<i32> = Set::empty();
    for idx in it: values.keys()
        invariant
            it.seq().unref().to_set() == values@.dom(),
            it.seq().no_duplicates(),
            sums_defined(*layout, old, values@),
            done.subset_of(values@.dom()),
            forall|k: i32| done.contains(k) <==> exists|j: int| 0 <= j < it.index() && *it.seq()[j] == k,
            cur@.dom() == old.dom().union(done),
            old == state@,
            forall|k: i32| #[trigger] done.contains(k) ==> layout.kind_of(k) is Some,
            forall|k: i32|
                #![trigger cur@[k]]
                done.contains(k) ==> crate::gene::op_result(
                    layout.kind_of(k)->Some_0,
                    crate::gene::value_at(old, k),
                    values@[k],
                    cur@[k],
                ),
            forall|k: i32|
                #![trigger cur@[k]]
                old.contains_key(k) && !done.contains(k) ==> cur@[k] == old[k],
    {
        let i = *idx;
        assert(values@.dom().contains(i)) by {
            assert(it.seq().unref()[it.index() as int] == i);
        }
        assert(!done.contains(i)) by {
            if done.contains(i) {
                let j = choose|j: int| 0 <= j < it.index() && *it.seq()[j] == i;
                assert(it.seq()[j] == it.seq()[it.index() as int]);
            }
        }
        let in_val = match values.get(&i) {
            Some(v) => *v,
            None => {
                return Err(OperatorError { reason: String::from_str("cannot read input value") });
            },
        };
        let new_val = match layout.op_kind(i) {
            None => {
                return Err(unsupported(i));
            },
            Some(OpKind::Gauge) => match GuageOperator::apply(&cur, i, in_val, datetime) {
                Ok(v) => v,
                Err(e) => {
                    return Err(e);
                },
            },
            Some(OpKind::Accum) => {
                assert(cur@.contains_key(i) == old.contains_key(i));
                match AccumOperator::apply(&cur, i, in_val, datetime) {
                    Ok(v) => v,
                    Err(e) => {
                        return Err(e);
                    },
                }
            },
        };
        cur.insert(i, new_val);
        proof {
            done = done.insert(i);
        }
    }
    assert(done =~= values@.dom());
    Ok(cur)
}

/// A Gene is a collection of config information - mostly operators - that
/// are applied to a path of actors.
pub trait Gene<T: Add<Output = T> + Copy> {
    /// Which operator the gene applies to each index.
    spec fn layout(&self) -> OperatorLayout;

    /// Applying all operators for a update message - many new observations
    /// arrive bundled together in single packages of update messages.
    fn apply_operators(&self, state: State<T>, update: Message<T>) -> (r: OperatorResult<
        State<T>,
    >)
        requires
            update matches Message::Observations { values, .. } ==> sums_defined(
                self.layout(),
                state@,
                values@,
            ),
        ensures
            kept_or_applied(self.layout(), state@, update, r),
    ;

    /// The time scope of the gene.
    spec fn scope(&self) -> TimeScope;

    /// The time scope of the gene.
    fn get_time_scope(&self) -> (r: &TimeScope)
        ensures
            *r == self.scope(),
    ;
}

/// the most basic common state are either guages or accumulators.  This
/// gene allows both of those operators to be applied to ranges of indexes.
pub struct GuageAndAccumGene {
    pub guage_first_idx: i32,
    pub guage_slots: i32,
    pub accumulator_first_idx: i32,
    pub accumulator_slots: i32,
    pub time_scope: TimeScope,
}

impl GuageAndAccumGene {
    /// The layout of the gene's ranges.
    pub open spec fn spec_layout(&self) -> OperatorLayout {
        OperatorLayout::Ranges {
            gauge_first: self.guage_first_idx,
            gauge_slots: self.guage_slots,
            accum_first: self.accumulator_first_idx,
            accum_slots: self.accumulator_slots,
        }
    }
}

impl<T: Add<Output = T> + Copy> Gene<T> for GuageAndAccumGene {
    open spec fn layout(&self) -> OperatorLayout {
        self.spec_layout()
    }

    fn apply_operators(&self, state: State<T>, update: Message<T>) -> (r: OperatorResult<State<T>>) {
        let layout = OperatorLayout::Ranges {
            gauge_first: self.guage_first_idx,
            gauge_slots: self.guage_slots,
            accum_first: self.accumulator_first_idx,
            accum_slots: self.accumulator_slots,
        };
        match update {
            Message::Observations { path: _, datetime, values } => {
                apply_operator_layout(&layout, state, &values, datetime)
            },
            _ => Ok(state),
        }
    }

    open spec fn scope(&self) -> TimeScope {
        self.time_scope
    }

    fn get_time_scope(&self) -> (r: &TimeScope) {
        &self.time_scope
    }
}

impl Default for GuageAndAccumGene {
    fn default() -> (r: Self)
        ensures
            r.guage_first_idx == 0,
            r.guage_slots == 100,
            r.accumulator_first_idx == 100,
            r.accumulator_slots == 100,
            r.time_scope == TimeScope::Forever,
    {
        Self {
            guage_first_idx: 0,
            guage_slots: 100,
            accumulator_first_idx: 100,
            accumulator_slots: 100,
            time_scope: TimeScope::Forever,
        }
    }
}

} // verus!
