//! The state every actor keeps, and the core of the state actor: applying its
//! gene to observations and rebuilding its state from the journal.
use crate::accum_gene::AccumGene;
use crate::gauge_and_accum_gene::GaugeAndAccumGene;
use crate::gauge_gene::GaugeGene;
use crate::gene::{
    all_supported, gene_update_requires, gene_update_result, observations_applied, Gene, GeneType,
    OpKind, OperatorLayout, TimeScope,
};
use crate::message::{Message, NvError, NvResult};
use crate::operator::{is_sum, OperatorResult};
use std::collections::HashMap;
use std::ops::Add;
use time::OffsetDateTime;
use vstd::prelude::*;
use vstd::std_specs::ops::AddSpec;

verus! {

/// in-mem state for an actor
pub type State<T> = HashMap<i32, T>;

/// One of the genes a director can give an actor.
pub enum AnyGene {
    Accum(AccumGene),
    Gauge(GaugeGene),
    GaugeAndAccum(GaugeAndAccumGene),
}

impl AnyGene {
    /// Which operator the gene applies to each index.
    pub open spec fn gene_layout(&self) -> OperatorLayout {
        match self {
            AnyGene::Accum(_) => OperatorLayout::AllAccum,
            AnyGene::Gauge(_) => OperatorLayout::AllGauge,
            AnyGene::GaugeAndAccum(g) => g.spec_layout(),
        }
    }

    /// The time scope of the gene.
    pub open spec fn gene_scope(&self) -> TimeScope {
        match self {
            AnyGene::Accum(g) => g.time_scope,
            AnyGene::Gauge(g) => g.time_scope,
            AnyGene::GaugeAndAccum(g) => g.time_scope,
        }
    }

    /// The gene's ranges can be computed.
    pub open spec fn gene_well_formed(&self) -> bool {
        match self {
            AnyGene::GaugeAndAccum(g) => g.ranges_fit(),
            _ => true,
        }
    }
}

impl<T: Add<Output = T> + Copy> Gene<T> for AnyGene {
    open spec fn layout(&self) -> OperatorLayout {
        self.gene_layout()
    }

    open spec fn well_formed(&self) -> bool {
        self.gene_well_formed()
    }

    open spec fn scope(&self) -> TimeScope {
        self.gene_scope()
    }

    fn apply_operators(&self, state: State<T>, update: Message<T>) -> (r: OperatorResult<State<T>>) {
        match self {
            AnyGene::Accum(g) => g.apply_operators(state, update),
            AnyGene::Gauge(g) => g.apply_operators(state, update),
            AnyGene::GaugeAndAccum(g) => g.apply_operators(state, update),
        }
    }

    fn get_time_scope(&self) -> (r: &TimeScope) {
        match self {
            AnyGene::Accum(g) => &g.time_scope,
            AnyGene::Gauge(g) => &g.time_scope,
            AnyGene::GaugeAndAccum(g) => &g.time_scope,
        }
    }
}

/// The layout of the default gauge-and-accumulator gene.
pub open spec fn default_ranges() -> OperatorLayout {
    OperatorLayout::Ranges { gauge_first: 0, gauge_slots: 100, accum_first: 100, accum_slots: 100 }
}

/// The layout of the gene a gene type gives.
pub open spec fn layout_of_type(gene_type: GeneType) -> OperatorLayout {
    match gene_type {
        GeneType::Accum => OperatorLayout::AllAccum,
        GeneType::Gauge => OperatorLayout::AllGauge,
        _ => default_ranges(),
    }
}

/// The gene a gene type gives: `Accum` accumulates every index, `Gauge` gauges every
/// index, and every other gene type (`Default` and `GaugeAndAccum`) gets the
/// gauge-and-accumulator gene with gauges on 0..100 and accumulators on 100..200: so under
/// `Default` index 150 accumulates and index 500 is rejected.
pub proof fn lemma_gene_of_each_type(gt: GeneType)
    ensures
        gt == GeneType::Accum ==> layout_of_type(gt) == OperatorLayout::AllAccum,
        gt == GeneType::Gauge ==> layout_of_type(gt) == OperatorLayout::AllGauge,
        gt != GeneType::Accum && gt != GeneType::Gauge ==> (layout_of_type(gt) == (OperatorLayout::Ranges {
            gauge_first: 0,
            gauge_slots: 100,
            accum_first: 100,
            accum_slots: 100,
        })),
        layout_of_type(GeneType::Default).kind_of(150) == Some(OpKind::Accum),
        (layout_of_type(GeneType::Default).kind_of(500) is None),
        layout_of_type(GeneType::Default) == layout_of_type(GeneType::GaugeAndAccum),
{
}

/// The gene for a gene type: accumulators, gauges, or the default gauge-and-accumulator
/// ranges for the other types.
pub fn get_gene(gene_type: GeneType) -> (r: AnyGene)
    ensures
        r.gene_well_formed(),
        r.gene_layout() == layout_of_type(gene_type),
        r.gene_scope() == TimeScope::Forever,
{
    match gene_type {
        GeneType::Accum => AnyGene::Accum(AccumGene::default()),
        GeneType::Gauge => AnyGene::Gauge(GaugeGene::default()),
        _ => AnyGene::GaugeAndAccum(GaugeAndAccumGene::default()),
    }
}

/// The state once the observations `values` went through the operators of `layout`,
/// for value types whose addition is the spec `add_spec`.
pub open spec fn applied_state<T: Add<Output = T>>(
    layout: OperatorLayout,
    s: Map<i32, T>,
    values: Map<i32, T>,
) -> Map<i32, T> {
    Map::new(
        |k: i32| s.contains_key(k) || values.contains_key(k),
        |k: i32|
            if values.contains_key(k) {
                match layout.kind_of(k) {
                    Some(OpKind::Accum) => if s.contains_key(k) {
                        s[k].add_spec(values[k])
                    } else {
                        values[k]
                    },
                    _ => values[k],
                }
            } else {
                s[k]
            },
    )
}

/// The state after one message, if the gene accepts it.
pub open spec fn step_state<T: Add<Output = T>>(
    layout: OperatorLayout,
    s: Map<i32, T>,
    m: Message<T>,
) -> Option<Map<i32, T>> {
    match m {
        Message::Observations { values, .. } => if all_supported(layout, values@) {
            Some(applied_state(layout, s, values@))
        } else {
            None
        },
        _ => None,
    }
}

/// The state of a live actor after a run of messages: each accepted message advances
/// it, a rejected one leaves it as it was.
pub open spec fn live_state<T: Add<Output = T>>(
    layout: OperatorLayout,
    s: Map<i32, T>,
    msgs: Seq<Message<T>>,
) -> Map<i32, T>
    decreases msgs.len(),
{
    if msgs.len() == 0 {
        s
    } else {
        let next = match step_state(layout, s, msgs[0]) {
            Some(n) => n,
            None => s,
        };
        live_state(layout, next, msgs.drop_first())
    }
}

/// The state an actor rebuilds from a journal stream: it applies entries until the end
/// of the stream or the first entry its gene rejects.
pub open spec fn replay_state<T: Add<Output = T>>(
    layout: OperatorLayout,
    s: Map<i32, T>,
    msgs: Seq<Message<T>>,
) -> Map<i32, T>
    decreases msgs.len(),
{
    if msgs.len() == 0 {
        s
    } else if msgs[0] is EndOfStream {
        s
    } else {
        match step_state(layout, s, msgs[0]) {
            Some(n) => replay_state(layout, n, msgs.drop_first()),
            None => s,
        }
    }
}

/// `t` is the state a replay of `msgs` from `s` ends in, having applied `count` entries:
/// each entry before the end of the stream and before the first entry the gene rejects
/// goes through the gene's operators as `observations_applied` says, and the replay stops
/// there.  This holds for every value type; `replay_state` computes it where addition is
/// `add_spec`.
pub open spec fn replayed_as<T: Add<Output = T>>(
    layout: OperatorLayout,
    s: Map<i32, T>,
    msgs: Seq<Message<T>>,
    t: Map<i32, T>,
    count: nat,
) -> bool
    decreases msgs.len(),
{
    if msgs.len() == 0 || msgs[0] is EndOfStream || !accepts(layout, msgs[0]) {
        t == s && count == 0
    } else {
        &&& count > 0
        &&& exists|n: Map<i32, T>|
            #[trigger] observations_applied(layout, s, msgs[0]->Observations_values@, n) && replayed_as(
                layout,
                n,
                msgs.drop_first(),
                t,
                (count - 1) as nat,
            )
    }
}

/// The number of journal entries a replay applies: those before the end of the stream
/// or the first entry the gene rejects.
pub open spec fn replay_count<T: Add<Output = T>>(
    layout: OperatorLayout,
    s: Map<i32, T>,
    msgs: Seq<Message<T>>,
) -> nat
    decreases msgs.len(),
{
    if msgs.len() == 0 {
        0
    } else if msgs[0] is EndOfStream {
        0
    } else {
        match step_state(layout, s, msgs[0]) {
            Some(n) => 1 + replay_count(layout, n, msgs.drop_first()),
            None => 0,
        }
    }
}

/// Every entry a replay applies has its sums defined (for integers: none overflows), on
/// the state the replay has reached when it applies it.
pub open spec fn replay_defined<T: Add<Output = T>>(
    layout: OperatorLayout,
    s: Map<i32, T>,
    msgs: Seq<Message<T>>,
) -> bool
    decreases msgs.len(),
{
    if msgs.len() == 0 {
        true
    } else if msgs[0] is EndOfStream {
        true
    } else {
        &&& gene_update_requires(layout, s, msgs[0])
        &&& match step_state(layout, s, msgs[0]) {
            Some(n) => replay_defined(layout, n, msgs.drop_first()),
            None => true,
        }
    }
}

/// What a replay needs: every sum a gene may take is defined, or the value type's
/// addition is `add_spec` and the sums of this replay are defined.
pub open spec fn replay_requires<T: Add<Output = T>>(
    layout: OperatorLayout,
    s: Map<i32, T>,
    msgs: Seq<Message<T>>,
) -> bool {
    ||| forall|a: T, b: T| #[trigger] a.add_req(b)
    ||| (T::obeys_add_spec() && replay_defined(layout, s, msgs))
}

proof fn lemma_replay_count_bound<T: Add<Output = T>>(
    layout: OperatorLayout,
    s: Map<i32, T>,
    msgs: Seq<Message<T>>,
)
    ensures
        replay_count(layout, s, msgs) <= msgs.len(),
    decreases msgs.len(),
{
    if msgs.len() > 0 && !(msgs[0] is EndOfStream) {
        if let Some(n) = step_state(layout, s, msgs[0]) {
            lemma_replay_count_bound(layout, n, msgs.drop_first());
        }
    }
}

/// For value types whose addition is `add_spec`, the state that applying observations
/// gives is the one `applied_state` describes.
pub proof fn lemma_applied_is_applied_state<T: Add<Output = T>>(
    layout: OperatorLayout,
    old: Map<i32, T>,
    values: Map<i32, T>,
    new: Map<i32, T>,
)
    requires
        T::obeys_add_spec(),
        all_supported(layout, values),
        observations_applied(layout, old, values, new),
    ensures
        new == applied_state(layout, old, values),
{
    let a = applied_state(layout, old, values);
    assert forall|k: i32| #[trigger] new.contains_key(k) implies new[k] == a[k] by {
        if values.contains_key(k) {
            assert(layout.kind_of(k) is Some);
            if layout.kind_of(k) == Some(OpKind::Accum) && old.contains_key(k) {
                assert(is_sum(old[k], values[k], new[k]));
            }
        }
    }
    assert(new =~= a);
}

/// Journal replay reproduces live state: when every journaled message was accepted as the
/// actor ran, an actor rebuilt from the journal (closed by `EndOfStream`) has the state the
/// live actor had.
pub proof fn lemma_replay_reproduces_live<T: Add<Output = T>>(
    layout: OperatorLayout,
    s: Map<i32, T>,
    journal: Seq<Message<T>>,
)
    requires
        forall|i: int|
            0 <= i < journal.len() ==> (#[trigger] journal[i] matches Message::Observations {
                values,
                ..
            } && all_supported(layout, values@)),
    ensures
        replay_state(layout, s, journal.push(Message::EndOfStream {})) == live_state(layout, s, journal),
    decreases journal.len(),
{
    let stream = journal.push(Message::EndOfStream {});
    if journal.len() == 0 {
        assert(stream[0] is EndOfStream);
    } else {
        let n = step_state(layout, s, journal[0])->Some_0;
        assert(stream.drop_first() == journal.drop_first().push(Message::EndOfStream {}));
        assert forall|i: int| 0 <= i < journal.drop_first().len() implies (#[trigger] journal.drop_first()[i] matches Message::Observations {
                values,
                ..
            } && all_supported(layout, values@)) by {
            assert(journal.drop_first()[i] == journal[i + 1]);
        }
        lemma_replay_reproduces_live(layout, n, journal.drop_first());
    }
}

/// The state after `m` when the gene has `layout`: advanced if accepted, kept otherwise.
pub open spec fn after_message<T: Add<Output = T>>(
    layout: OperatorLayout,
    s: Map<i32, T>,
    m: Message<T>,
) -> Map<i32, T> {
    match step_state(layout, s, m) {
        Some(n) => n,
        None => s,
    }
}

/// Whether the gene with `layout` accepts the message: observations on supported indexes.
pub open spec fn accepts<T>(layout: OperatorLayout, m: Message<T>) -> bool {
    m matches Message::Observations { values, .. } && all_supported(layout, values@)
}

/// What the state actor does with a message.
pub enum StateReply<T> {
    /// answer the sender (if it asked) with this
    Respond(NvResult<Message<T>>),
    /// rebuild the state from the journal stream in the envelope
    Replay,
    /// nothing to answer
    Ignore,
}

/// the state actor is the heart of the system.  each digital twin has an
/// instance of actor keeping state computed from an arriving stream of
/// observations.
pub struct StateActor<T> {
    pub path: String,
    pub state: State<T>,
    pub gene: AnyGene,
}

/// The reason the state actor gives when its gene rejects an update.
pub open spec fn cannot_apply_reason() -> Seq<char> {
    "cannot apply operators"@
}

impl<T: Add<Output = T> + Copy> StateActor<T> {
    /// state will populated from event store before any other processing via
    /// the lifecycle processing coordinated by the director
    pub fn new(path: String, gene: AnyGene) -> (r: Self)
        ensures
            r.path == path,
            r.gene == gene,
            r.state@ == Map::<i32, T>::empty(),
    {
        StateActor { path, state: State::new(), gene }
    }

    /// Applies the gene to a message; on success the state advances and `true` is
    /// returned, otherwise the state is kept and `false` returned.
    pub fn update_state(&mut self, message: Message<T>) -> (r: bool)
        requires
            old(self).gene.gene_well_formed(),
            gene_update_requires(old(self).gene.gene_layout(), old(self).state@, message),
        ensures
            final(self).path == old(self).path,
            final(self).gene == old(self).gene,
            r == accepts(old(self).gene.gene_layout(), message),
            r ==> (message matches Message::Observations { values, .. } && observations_applied(
                old(self).gene.gene_layout(),
                old(self).state@,
                values@,
                final(self).state@,
            )),
            !r ==> final(self).state@ == old(self).state@,
            T::obeys_add_spec() ==> final(self).state@ == after_message(
                old(self).gene.gene_layout(),
                old(self).state@,
                message,
            ),
    {
        let ghost m = message;
        let ghost s0 = self.state@;
        match self.gene.apply_operators(self.state.clone(), message) {
            Ok(new_state) => {
                self.state = new_state;
                proof {
                    if T::obeys_add_spec() {
                        let values = m->Observations_values;
                        lemma_applied_is_applied_state(self.gene.gene_layout(), s0, values@, self.state@);
                    }
                }
                true
            },
            Err(_) => false,
        }
    }

    /// A report of the current state, dated `datetime`.
    pub fn get_state_rpt(&self, datetime: OffsetDateTime) -> (r: Message<T>)
        ensures
            r matches Message::StateReport { datetime: d, path, values } && d == datetime
                && path@ == self.path@ && values@ == self.state@,
    {
        Message::StateReport { path: self.path.clone(), values: self.state.clone(), datetime }
    }

    /// The state actor's decision for one message: observations update the state and are
    /// answered with the new state report (or an error where the gene rejects them),
    /// queries are answered with the report, an init command starts a journal replay,
    /// anything else is ignored.  `now` dates the report.
    pub fn handle(&mut self, message: Message<T>, now: OffsetDateTime) -> (r: StateReply<T>)
        requires
            old(self).gene.gene_well_formed(),
            gene_update_requires(old(self).gene.gene_layout(), old(self).state@, message),
        ensures
            final(self).path == old(self).path,
            final(self).gene == old(self).gene,
            !accepts(old(self).gene.gene_layout(), message) ==> final(self).state@ == old(self).state@,
            accepts(old(self).gene.gene_layout(), message) ==> (message matches Message::Observations { values, .. } && observations_applied(
                old(self).gene.gene_layout(),
                old(self).state@,
                values@,
                final(self).state@,
            )),
            T::obeys_add_spec() ==> final(self).state@ == after_message(old(self).gene.gene_layout(), old(self).state@, message),
            message is Observations && accepts(old(self).gene.gene_layout(), message) ==> (r matches StateReply::Respond(Ok(Message::StateReport { datetime, path, values })) && datetime == now && path@ == final(self).path@ && values@ == final(self).state@),
            message is Observations && !accepts(old(self).gene.gene_layout(), message) ==> (r matches StateReply::Respond(Err(e)) && e.reason@ == cannot_apply_reason()),
            message is Query ==> (r matches StateReply::Respond(Ok(Message::StateReport { datetime, path, values })) && datetime == now && path@ == final(self).path@ && values@ == final(self).state@),
            message is InitCmd ==> r is Replay,
            !(message is Observations || message is Query || message is InitCmd) ==> r is Ignore,
    {
        match message {
            Message::Observations { .. } => {
                if self.update_state(message) {
                    StateReply::Respond(Ok(self.get_state_rpt(now)))
                } else {
                    StateReply::Respond(Err(NvError { reason: String::from_str("cannot apply operators") }))
                }
            },
            Message::Query { .. } => StateReply::Respond(Ok(self.get_state_rpt(now))),
            Message::InitCmd {} => StateReply::Replay,
            _ => StateReply::Ignore,
        }
    }

    /// Rebuilds the state from a journal stream: applies entries in order until the end of
    /// the stream or the first entry the gene rejects, and returns how many it applied.
    pub fn replay(&mut self, journal: Vec<Message<T>>) -> (count: usize)
        requires
            old(self).gene.gene_well_formed(),
            replay_requires(old(self).gene.gene_layout(), old(self).state@, journal@),
        ensures
            final(self).path == old(self).path,
            final(self).gene == old(self).gene,
            count <= journal@.len(),
            replayed_as(old(self).gene.gene_layout(), old(self).state@, journal@, final(self).state@, count as nat),
            T::obeys_add_spec() ==> final(self).state@ == replay_state(old(self).gene.gene_layout(), old(self).state@, journal@),
            T::obeys_add_spec() ==> count == replay_count(old(self).gene.gene_layout(), old(self).state@, journal@),
    {
        let ghost layout = self.gene.gene_layout();
        let ghost s0 = self.state@;
        let ghost orig = journal@;
        let mut rest = journal;
        let n = rest.len();
        let mut count: usize = 0;
        let mut done = false;
        proof {
            lemma_replay_count_bound(layout, s0, orig);
        }
        while !done && rest.len() > 0
            invariant
                self.path == old(self).path,
                self.gene == old(self).gene,
                self.gene.gene_well_formed(),
                layout == self.gene.gene_layout(),
                s0 == old(self).state@,
                orig == journal@,
                orig.len() == n,
                count + rest@.len() <= n,
                (forall|a: T, b: T| #[trigger] a.add_req(b)) || T::obeys_add_spec(),
                T::obeys_add_spec() && !(forall|a: T, b: T| #[trigger] a.add_req(b)) && !done ==> replay_defined(layout, self.state@, rest@),
                T::obeys_add_spec() && !done ==> replay_state(layout, s0, orig) == replay_state(layout, self.state@, rest@),
                T::obeys_add_spec() && !done ==> count + replay_count(layout, self.state@, rest@) == replay_count(layout, s0, orig),
                T::obeys_add_spec() && done ==> replay_state(layout, s0, orig) == self.state@,
                T::obeys_add_spec() && done ==> count == replay_count(layout, s0, orig),
                !done ==> forall|t: Map<i32, T>, c: nat|
                    #[trigger] replayed_as(layout, self.state@, rest@, t, c) ==> replayed_as(layout, s0, orig, t, (count + c) as nat),
                done ==> replayed_as(layout, s0, orig, self.state@, count as nat),
            decreases rest@.len(),
        {
            let ghost before = rest@;
            let ghost st = self.state@;
            let m = rest.remove(0);
            assert(before.drop_first() == rest@);
            proof {
                if forall|a: T, b: T| #[trigger] a.add_req(b) {
                    assert(gene_update_requires(layout, st, m));
                }
            }
            let ghost m0 = m;
            let ghost c0 = count;
            if self.replay_step(m) {
                count = count + 1;
                proof {
                    let nw = self.state@;
                    assert forall|t: Map<i32, T>, c: nat|
                        #[trigger] replayed_as(layout, nw, rest@, t, c) implies replayed_as(layout, s0, orig, t, (count + c) as nat) by {
                        assert(observations_applied(layout, st, m0->Observations_values@, nw));
                        assert(replayed_as(layout, st, before, t, (c + 1) as nat));
                    }
                }
            } else {
                done = true;
                proof {
                    assert(replayed_as(layout, st, before, st, 0));
                }
            }
        }
        proof {
            if !done {
                assert(replayed_as(layout, self.state@, rest@, self.state@, 0));
            }
        }
        count
    }

    /// One entry of a journal replay: the end of the stream stops it; any other entry is
    /// applied, and a rejected one stops it too.  Returns whether to read on.
    pub fn replay_step(&mut self, message: Message<T>) -> (r: bool)
        requires
            old(self).gene.gene_well_formed(),
            gene_update_requires(old(self).gene.gene_layout(), old(self).state@, message),
        ensures
            final(self).path == old(self).path,
            final(self).gene == old(self).gene,
            r == (!(message is EndOfStream) && accepts(old(self).gene.gene_layout(), message)),
            !r ==> final(self).state@ == old(self).state@,
            r ==> (message matches Message::Observations { values, .. } && observations_applied(
                old(self).gene.gene_layout(),
                old(self).state@,
                values@,
                final(self).state@,
            )),
            T::obeys_add_spec() ==> final(self).state@ == (if message is EndOfStream {
                old(self).state@
            } else {
                after_message(old(self).gene.gene_layout(), old(self).state@, message)
            }),
    {
        match message {
            Message::EndOfStream {} => false,
            _ => self.update_state(message),
        }
    }
}

} // verus!
