//! A gene whose every index is a gauge: the latest observation is the state.
use crate::actor::State;
use crate::gene::{apply_gene_layout, gene_update_requires, gene_update_result, Gene, OperatorLayout, TimeScope};
use crate::message::Message;
use crate::nvtime::now_utc;
use crate::operator::OperatorResult;
use std::ops::Add;
use time::OffsetDateTime;
use vstd::prelude::*;

verus! {

/// Every index is a gauge: each new observation replaces the reported value.
pub struct GaugeGene {
    pub time_scope: TimeScope,
    pub base_time: OffsetDateTime,
}

impl<T: Add<Output = T> + Copy> Gene<T> for GaugeGene {
    open spec fn layout(&self) -> OperatorLayout {
        OperatorLayout::AllGauge
    }

    open spec fn well_formed(&self) -> bool {
        true
    }

    fn apply_operators(&self, state: State<T>, update: Message<T>) -> (r: OperatorResult<State<T>>) {
        apply_gene_layout(&OperatorLayout::AllGauge, state, update)
    }

    open spec fn scope(&self) -> TimeScope {
        self.time_scope
    }

    fn get_time_scope(&self) -> (r: &TimeScope) {
        &self.time_scope
    }
}

impl Default for GaugeGene {
    fn default() -> (r: Self)
        ensures
            r.time_scope == TimeScope::Forever,
    {
        Self { time_scope: TimeScope::Forever, base_time: now_utc() }
    }
}

} // verus!
