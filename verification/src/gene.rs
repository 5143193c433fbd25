//! Genes: which operator a gene applies to each state index, and the names of
//! gene types and time scopes.
use crate::actor::State;
use crate::message::Message;
use crate::operator::{is_sum, Accumulator, Gauge, OpError, Operator, OperatorResult};
use crate::text::int_decimal;
use std::collections::HashMap;
use std::ops::Add;
use time::OffsetDateTime;
use vstd::prelude::*;
use vstd::std_specs::ops::AddSpec;

verus! {

/// The kinds of genes a path can be mapped to.
#[derive(Debug, Clone, Copy, PartialEq, Eq, Structural)]
pub enum GeneType {
    Accum,
    Gauge,
    GaugeAndAccum,
    Default,
}

/// The text a gene type displays.
pub open spec fn gene_type_label(gt: GeneType) -> Seq<char> {
    match gt {
        GeneType::Accum => "[Accum Gene]"@,
        GeneType::Gauge => "[GaugeGene]"@,
        GeneType::GaugeAndAccum => "[GaugeAndAccum Gene]"@,
        GeneType::Default => "[Default GaugeGene]"@,
    }
}

/// The name of a gene type as mappings are written and stored.
pub open spec fn gene_type_code(gt: GeneType) -> Seq<char> {
    match gt {
        GeneType::Accum => "Accum"@,
        GeneType::Gauge => "Gauge"@,
        GeneType::GaugeAndAccum => "GaugeAndAccum"@,
        GeneType::Default => "Default"@,
    }
}

impl GeneType {
    /// The text the gene type displays.
    pub fn to_display_string(&self) -> (r: String)
        ensures
            r@ == gene_type_label(*self),
    {
        match self {
            GeneType::Accum => String::from_str("[Accum Gene]"),
            GeneType::Gauge => String::from_str("[GaugeGene]"),
            GeneType::GaugeAndAccum => String::from_str("[GaugeAndAccum Gene]"),
            GeneType::Default => String::from_str("[Default GaugeGene]"),
        }
    }

    /// The stored name of the gene type.
    pub fn to_code(&self) -> (r: String)
        ensures
            r@ == gene_type_code(*self),
    {
        match self {
            GeneType::Accum => String::from_str("Accum"),
            GeneType::Gauge => String::from_str("Gauge"),
            GeneType::GaugeAndAccum => String::from_str("GaugeAndAccum"),
            GeneType::Default => String::from_str("Default"),
        }
    }
}

/// The time granularity of a gene.
#[derive(Debug, Clone, Copy, PartialEq, Eq, Structural)]
pub enum TimeScope {
    Forever,
    Year,
    Month,
    Day,
    HalfDay,
    QuarterDay,
    Hour,
    QuarterHour,
    TenMinutes,
    Minute,
}

/// The text a time scope displays; quarter hours and minutes share the minute label.
pub open spec fn time_scope_label(ts: TimeScope) -> Seq<char> {
    match ts {
        TimeScope::Forever => "[Forever Time Scope]"@,
        TimeScope::Year => "[Year Time Scope]"@,
        TimeScope::Month => "[Month Time Scope]"@,
        TimeScope::Day => "[Day Time Scope]"@,
        TimeScope::HalfDay => "[Half Day Time Scope]"@,
        TimeScope::QuarterDay => "[Quarter Day Time Scope]"@,
        TimeScope::Hour => "[Hour Time Scope]"@,
        TimeScope::TenMinutes => "[Ten Minute Time Scope]"@,
        _ => "[Minute Time Scope]"@,
    }
}

impl TimeScope {
    /// The text the time scope displays.
    pub fn to_display_string(&self) -> (r: String)
        ensures
            r@ == time_scope_label(*self),
    {
        match self {
            TimeScope::Forever => String::from_str("[Forever Time Scope]"),
            TimeScope::Year => String::from_str("[Year Time Scope]"),
            TimeScope::Month => String::from_str("[Month Time Scope]"),
            TimeScope::Day => String::from_str("[Day Time Scope]"),
            TimeScope::HalfDay => String::from_str("[Half Day Time Scope]"),
            TimeScope::QuarterDay => String::from_str("[Quarter Day Time Scope]"),
            TimeScope::Hour => String::from_str("[Hour Time Scope]"),
            TimeScope::TenMinutes => String::from_str("[Ten Minute Time Scope]"),
            _ => String::from_str("[Minute Time Scope]"),
        }
    }
}

/// The operator a gene applies to a state index.
#[derive(Debug, Clone, Copy, PartialEq, Eq, Structural)]
pub enum OpKind {
    Gauge,
    Accum,
}

/// Which operator a gene applies to each state index.
#[derive(Debug, Clone, Copy, PartialEq, Eq, Structural)]
pub enum OperatorLayout {
    /// every index is a gauge
    AllGauge,
    /// every index is an accumulator
    AllAccum,
    /// `gauge_slots` gauges from `gauge_first`, then `accum_slots` accumulators from
    /// `accum_first`; other indexes are unsupported
    Ranges { gauge_first: i32, gauge_slots: i32, accum_first: i32, accum_slots: i32 },
}

impl OperatorLayout {
    /// The operator for `idx`, or `None` where the index is unsupported.  A gauge range
    /// takes precedence over an overlapping accumulator range.
    pub open spec fn kind_of(self, idx: i32) -> Option<OpKind> {
        match self {
            OperatorLayout::AllGauge => Some(OpKind::Gauge),
            OperatorLayout::AllAccum => Some(OpKind::Accum),
            OperatorLayout::Ranges { gauge_first, gauge_slots, accum_first, accum_slots } => {
                if gauge_first <= idx < gauge_first + gauge_slots {
                    Some(OpKind::Gauge)
                } else if accum_first <= idx < accum_first + accum_slots {
                    Some(OpKind::Accum)
                } else {
                    None
                }
            },
        }
    }

    /// The operator for `idx`, or `None` where the index is unsupported.
    pub fn op_kind(&self, idx: i32) -> (r: Option<OpKind>)
        ensures
            r == self.kind_of(idx),
    {
        match self {
            OperatorLayout::AllGauge => Some(OpKind::Gauge),
            OperatorLayout::AllAccum => Some(OpKind::Accum),
            OperatorLayout::Ranges { gauge_first, gauge_slots, accum_first, accum_slots } => {
                let i = idx as i64;
                if (*gauge_first as i64) <= i && i < (*gauge_first as i64) + (*gauge_slots as i64) {
                    Some(OpKind::Gauge)
                } else if (*accum_first as i64) <= i && i < (*accum_first as i64)
                    + (*accum_slots as i64) {
                    Some(OpKind::Accum)
                } else {
                    None
                }
            },
        }
    }
}

/// Ranges are half open: in a ranges layout an index is a gauge exactly when
/// `gauge_first <= idx < gauge_first + gauge_slots`, an accumulator exactly when it is not
/// a gauge and `accum_first <= idx < accum_first + accum_slots`, and unsupported otherwise.
/// So with the default ranges (gauges from 0, 100 slots; accumulators from 100, 100 slots)
/// index 99 is the last gauge, 100 the first accumulator, 199 the last accumulator and 200
/// unsupported.
pub proof fn lemma_ranges_are_half_open(
    gauge_first: i32,
    gauge_slots: i32,
    accum_first: i32,
    accum_slots: i32,
    idx: i32,
)
    ensures
        ({
            let layout = OperatorLayout::Ranges { gauge_first, gauge_slots, accum_first, accum_slots };
            let in_gauges = gauge_first <= idx && idx < gauge_first + gauge_slots;
            let in_accums = accum_first <= idx && idx < accum_first + accum_slots;
            &&& (layout.kind_of(idx) == Some(OpKind::Gauge) <==> in_gauges)
            &&& (layout.kind_of(idx) == Some(OpKind::Accum) <==> !in_gauges && in_accums)
            &&& (layout.kind_of(idx) is None <==> !in_gauges && !in_accums)
        }),
        ({
            let d = OperatorLayout::Ranges { gauge_first: 0, gauge_slots: 100, accum_first: 100, accum_slots: 100 };
            &&& d.kind_of(0) == Some(OpKind::Gauge)
            &&& d.kind_of(99) == Some(OpKind::Gauge)
            &&& d.kind_of(100) == Some(OpKind::Accum)
            &&& d.kind_of(199) == Some(OpKind::Accum)
            &&& d.kind_of(200) is None
            &&& d.kind_of(-1i32) is None
        }),
{
}

/// Every layout gives the all-gauge and all-accumulator layouts their one operator for
/// every index.
pub proof fn lemma_uniform_layouts(idx: i32)
    ensures
        OperatorLayout::AllGauge.kind_of(idx) == Some(OpKind::Gauge),
        OperatorLayout::AllAccum.kind_of(idx) == Some(OpKind::Accum),
{
}

/// `r` is the new value of an index once `v` is observed, under operator `kind`, where
/// `old` is the index's previous value if it had one.
pub open spec fn op_result<T: Add<Output = T>>(kind: OpKind, old: Option<T>, v: T, r: T) -> bool {
    match kind {
        OpKind::Gauge => r == v,
        OpKind::Accum => match old {
            Some(o) => is_sum(o, v, r),
            None => r == v,
        },
    }
}

/// The previous value of an index, if the state has one.
pub open spec fn value_at<T>(state: Map<i32, T>, k: i32) -> Option<T> {
    if state.contains_key(k) {
        Some(state[k])
    } else {
        None
    }
}

/// Every observed index has an operator.
pub open spec fn all_supported<T>(layout: OperatorLayout, values: Map<i32, T>) -> bool {
    forall|k: i32| values.contains_key(k) ==> (#[trigger] layout.kind_of(k)) is Some
}

/// Every sum the accumulators will take can be taken (for integers: does not overflow).
pub open spec fn sums_defined<T: Add<Output = T>>(
    layout: OperatorLayout,
    state: Map<i32, T>,
    values: Map<i32, T>,
) -> bool {
    forall|k: i32|
        values.contains_key(k) && state.contains_key(k) && #[trigger] layout.kind_of(k) == Some(
            OpKind::Accum,
        ) ==> state[k].add_req(values[k])
}

/// `new` is the state once every observation in `values` went through its operator:
/// the observed indexes take their new values, the others keep theirs.
pub open spec fn observations_applied<T: Add<Output = T>>(
    layout: OperatorLayout,
    old: Map<i32, T>,
    values: Map<i32, T>,
    new: Map<i32, T>,
) -> bool {
    &&& new.dom() == old.dom().union(values.dom())
    &&& forall|k: i32|
        #![trigger new[k]]
        values.contains_key(k) ==> op_result(layout.kind_of(k)->Some_0, value_at(old, k), values[k], new[k])
    &&& forall|k: i32|
        #![trigger new[k]]
        old.contains_key(k) && !values.contains_key(k) ==> new[k] == old[k]
}

/// The reason a gene gives for an index it has no operator for.
pub open spec fn unsupported_idx_reason(k: i32) -> Seq<char> {
    "unsupported idx: "@ + int_decimal(k as int)
}

/// The reason a gene gives for a message that is not an observation.
pub open spec fn unsupported_message_reason() -> Seq<char> {
    "unsupported message type"@
}

/// What applying a gene with `layout` to `update` in `state` needs.
pub open spec fn gene_update_requires<T: Add<Output = T>>(
    layout: OperatorLayout,
    state: Map<i32, T>,
    update: Message<T>,
) -> bool {
    update matches Message::Observations { values, .. } ==> sums_defined(layout, state, values@)
}

/// What applying a gene with `layout` to `update` in `state` returns: for observations,
/// the new state where every index is supported and otherwise an error naming an
/// unsupported index; for any other message, an error.
pub open spec fn gene_update_result<T: Add<Output = T>>(
    layout: OperatorLayout,
    state: Map<i32, T>,
    update: Message<T>,
    r: OperatorResult<State<T>>,
) -> bool {
    match update {
        Message::Observations { values, .. } => {
            &&& (r is Ok <==> all_supported(layout, values@))
            &&& (r matches Ok(ns) ==> observations_applied(layout, state, values@, ns@))
            &&& (r matches Err(e) ==> exists|k: i32|
                #![trigger layout.kind_of(k)]
                values@.contains_key(k) && layout.kind_of(k) is None && e.reason@
                    == unsupported_idx_reason(k))
        },
        _ => r matches Err(e) && e.reason@ == unsupported_message_reason(),
    }
}

/// The error for an unsupported index.
pub(crate) fn unsupported_idx(idx: i32) -> (e: OpError)
    ensures
        e.reason@ == unsupported_idx_reason(idx),
{
    let mut reason = String::from_str("unsupported idx: ");
    let n = crate::text::i64_to_text(idx as i64);
    reason.append(n.as_str());
    OpError { reason }
}

/// Applies the operators of `layout` to every observation in `values`.
pub fn apply_layout<T: Add<Output = T> + Copy>(
    layout: &OperatorLayout,
    state: State<T>,
    values: &HashMap<i32, T>,
    datetime: OffsetDateTime,
) -> (r: OperatorResult<State<T>>)
    requires
        sums_defined(*layout, state@, values@),
    ensures
        r is Ok <==> all_supported(*layout, values@),
        r matches Ok(ns) ==> observations_applied(*layout, state@, values@, ns@),
        r matches Err(e) ==> exists|k: i32|
            #![trigger layout.kind_of(k)]
            values@.contains_key(k) && layout.kind_of(k) is None && e.reason@
                == unsupported_idx_reason(k),
{
    broadcast use vstd::std_specs::hash::group_hash_axioms;
    let ghost old = state@;
    let mut state = state;
    let ghost mut done: Set<i32> = Set::empty();
    for idx in it: values.keys()
        invariant
            it.seq().unref().to_set() == values@.dom(),
            it.seq().no_duplicates(),
            sums_defined(*layout, old, values@),
            done.subset_of(values@.dom()),
            forall|k: i32| done.contains(k) <==> exists|j: int| 0 <= j < it.index() && *it.seq()[j] == k,
            state@.dom() == old.dom().union(done),
            forall|k: i32| #[trigger] done.contains(k) ==> layout.kind_of(k) is Some,
            forall|k: i32|
                #![trigger state@[k]]
                done.contains(k) ==> op_result(layout.kind_of(k)->Some_0, value_at(old, k), values@[k], state@[k]),
            forall|k: i32|
                #![trigger state@[k]]
                old.contains_key(k) && !done.contains(k) ==> state@[k] == old[k],
    {
        let i = *idx;
        assert(values@.dom().contains(i)) by {
            assert(it.seq().unref()[it.index() as int] == i);
        }
        assert(!done.contains(i)) by {
            if done.contains(i) {
                let j = choose|j: int| 0 <= j < it.index() && *it.seq()[j] == i;
                assert(it.seq()[j] == it.seq()[it.index() as int]);
            }
        }
        let in_val = match values.get(&i) {
            Some(v) => *v,
            None => {
                return Err(unsupported_idx(i));
            },
        };
        let new_val = match layout.op_kind(i) {
            None => {
                return Err(unsupported_idx(i));
            },
            Some(OpKind::Gauge) => match Gauge::apply(&state, i, in_val, datetime) {
                Ok(v) => v,
                Err(e) => {
                    return Err(e);
                },
            },
            Some(OpKind::Accum) => match Accumulator::apply(&state, i, in_val, datetime) {
                Ok(v) => v,
                Err(e) => {
                    return Err(e);
                },
            },
        };
        state.insert(i, new_val);
        proof {
            done = done.insert(i);
        }
    }
    assert(done =~= values@.dom());
    Ok(state)
}

/// A Gene is a collection of config information - mostly operators - that
/// are applied to a path of actors.  A gene may apply to
/// `/org/location/floor` where all reports for a floor have the some gene
/// or could be `/make/model` or for an individual machine like
/// `/devices/12345`.
pub trait Gene<T: Add<Output = T> + Copy> {
    /// Which operator the gene applies to each index.
    spec fn layout(&self) -> OperatorLayout;

    /// What the gene needs of itself before it can apply operators.
    spec fn well_formed(&self) -> bool;

    /// Applying all operators for a update message - many new observations
    /// arrive bundled together in single packages of update messages.
    fn apply_operators(&self, state: State<T>, update: Message<T>) -> (r: OperatorResult<
        State<T>,
    >)
        requires
            self.well_formed(),
            gene_update_requires(self.layout(), state@, update),
        ensures
            gene_update_result(self.layout(), state@, update, r),
    ;

    /// The time scope of the gene.
    spec fn scope(&self) -> TimeScope;

    /// The time scope of the gene.
    fn get_time_scope(&self) -> (r: &TimeScope)
        ensures
            *r == self.scope(),
    ;
}

/// Applies a gene's layout to an update message.
pub fn apply_gene_layout<T: Add<Output = T> + Copy>(
    layout: &OperatorLayout,
    state: State<T>,
    update: Message<T>,
) -> (r: OperatorResult<State<T>>)
    requires
        gene_update_requires(*layout, state@, update),
    ensures
        gene_update_result(*layout, state@, update, r),
{
    match update {
        Message::Observations { path: _, datetime, values } => {
            apply_layout(layout, state, &values, datetime)
        },
        _ => Err(OpError { reason: String::from_str("unsupported message type") }),
    }
}

} // verus!
