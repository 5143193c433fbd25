//! A gene whose every index accumulates the observations reported for it.
use crate::actor::State;
use crate::gene::{apply_gene_layout, gene_update_requires, gene_update_result, Gene, OperatorLayout, TimeScope};
use crate::message::Message;
use crate::nvtime::now_utc;
use crate::operator::OperatorResult;
use std::ops::Add;
use time::OffsetDateTime;
use vstd::prelude::*;

verus! {

/// Every index is an accumulator: its state is the sum of all values reported for it.
pub struct AccumGene {
    pub time_scope: TimeScope,
    pub base_time: OffsetDateTime,
}

impl<T: Add<Output = T> + Copy> Gene<T> for AccumGene {
    open spec fn layout(&self) -> OperatorLayout {
        OperatorLayout::AllAccum
    }

    open spec fn well_formed(&self) -> bool {
        true
    }

    fn apply_operators(&self, state: State<T>, update: Message<T>) -> (r: OperatorResult<State<T>>) {
        apply_gene_layout(&OperatorLayout::AllAccum, state, update)
    }

    open spec fn scope(&self) -> TimeScope {
        self.time_scope
    }

    fn get_time_scope(&self) -> (r: &TimeScope) {
        &self.time_scope
    }
}

impl Default for AccumGene {
    fn default() -> (r: Self)
        ensures
            r.time_scope == TimeScope::Forever,
    {
        Self { time_scope: TimeScope::Forever, base_time: now_utc() }
    }
}

} // verus!
