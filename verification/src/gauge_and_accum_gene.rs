//! the most basic common state are either gauges or accumulators.  This
//! gene allows both of those operators to be applied to ranges of indexes.
use crate::actor::State;
use crate::gene::{apply_gene_layout, gene_update_requires, gene_update_result, Gene, OperatorLayout, TimeScope};
use crate::message::Message;
use crate::nvtime::now_utc;
use crate::operator::OperatorResult;
use std::ops::Add;
use time::OffsetDateTime;
use vstd::prelude::*;

verus! {

/// Gauges on `guage_slots` indexes from `guage_first_idx`, accumulators on
/// `accumulator_slots` indexes from `accumulator_first_idx`; other indexes are rejected.
pub struct GaugeAndAccumGene {
    pub guage_first_idx: i32,
    pub guage_slots: i32,
    pub accumulator_first_idx: i32,
    pub accumulator_slots: i32,
    pub time_scope: TimeScope,
    pub base_time: OffsetDateTime,
}

impl GaugeAndAccumGene {
    /// The layout of the gene's ranges.
    pub open spec fn spec_layout(&self) -> OperatorLayout {
        OperatorLayout::Ranges {
            gauge_first: self.guage_first_idx,
            gauge_slots: self.guage_slots,
            accum_first: self.accumulator_first_idx,
            accum_slots: self.accumulator_slots,
        }
    }

    /// Both ranges end within `i32`, so that their bounds can be computed.
    pub open spec fn ranges_fit(&self) -> bool {
        &&& i32::MIN <= self.guage_first_idx + self.guage_slots <= i32::MAX
        &&& i32::MIN <= self.accumulator_first_idx + self.accumulator_slots <= i32::MAX
    }
}

impl<T: Add<Output = T> + Copy> Gene<T> for GaugeAndAccumGene {
    open spec fn layout(&self) -> OperatorLayout {
        self.spec_layout()
    }

    open spec fn well_formed(&self) -> bool {
        self.ranges_fit()
    }

    fn apply_operators(&self, state: State<T>, update: Message<T>) -> (r: OperatorResult<State<T>>) {
        let layout = OperatorLayout::Ranges {
            gauge_first: self.guage_first_idx,
            gauge_slots: self.guage_slots,
            accum_first: self.accumulator_first_idx,
            accum_slots: self.accumulator_slots,
        };
        apply_gene_layout(&layout, state, update)
    }

    open spec fn scope(&self) -> TimeScope {
        self.time_scope
    }

    fn get_time_scope(&self) -> (r: &TimeScope) {
        &self.time_scope
    }
}

impl Default for GaugeAndAccumGene {
    fn default() -> (r: Self)
        ensures
            r.guage_first_idx == 0,
            r.guage_slots == 100,
            r.accumulator_first_idx == 100,
            r.accumulator_slots == 100,
            r.time_scope == TimeScope::Forever,
    {
        Self {
            guage_first_idx: 0,
            guage_slots: 100,
            accumulator_first_idx: 100,
            accumulator_slots: 100,
            time_scope: TimeScope::Forever,
            base_time: now_utc(),
        }
    }
}

} // verus!
