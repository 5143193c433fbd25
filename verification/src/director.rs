//! The director's decisions: which actor a message goes to, which gene a new actor
//! gets, what is journaled, and how journal outcomes are answered.  The director actor
//! that owns the actor handles and channels carries these decisions out.
use crate::actor::{get_gene, layout_of_type, AnyGene};
use crate::gene::GeneType;
use crate::message::{message_label, Message, MtHint, NvError, NvResult};
use crate::paths::path_components;
use crate::text::{contains_str, contains_text};
use crate::gene::{gene_type_code, OperatorLayout};
use crate::store_actor_sqlite::{gene_type_from_code, lemma_gene_code_roundtrip, mapping_read, parse_gene_type_code, routed, StoreAction};
use crate::registry::{explain_report, inserted_entry, nearest_gene, GenePathMap};
use vstd::prelude::*;

verus! {

/// What the director does with a message.
pub enum DirectorAction<T> {
    /// read the mapping journal from the stream in the envelope
    LoadMappings,
    /// the mapping is in the registry; journal `entry` (the mapping as gene-mapping
    /// content, the form the store keeps) when a store is configured, then answer with
    /// `message` as `mapping_reply` says
    RecordMapping { message: Message<T>, entry: Message<T> },
    /// answer the sender with this
    Respond(NvResult<Message<T>>),
    /// journal (as `journal_plan` says) and deliver to the actor at `path`, creating it
    /// with the gene `gene_for_path` gives if it is not live
    ToActor { path: String, message: Message<T> },
    /// forward to the output actor with the sender's reply channel, or answer with it
    /// where there is no output actor
    Report(Message<T>),
}

/// How a message is journaled before it reaches its actor.
pub enum JournalPlan<T> {
    /// ask the store to journal the message
    Journal,
    /// no journaling; the outcome is this
    Done(NvResult<Message<T>>),
}

/// What follows a journal outcome.
pub enum AfterJournal<T> {
    /// deliver the message to its actor and answer with the actor's reply
    Deliver,
    /// answer the sender with this instead
    Respond(NvResult<Message<T>>),
}

/// What one entry of the mapping journal did to the registry during init.
#[derive(Debug, Clone, Copy, PartialEq, Eq, Structural)]
pub enum MappingReplay {
    /// the end of the stream
    Stop,
    /// a mapping, now in the registry
    Counted,
    /// anything else, passed over
    Skipped,
}

/// The reason the director gives for a message it does not handle.
pub open spec fn unexpected_reason<T>(m: Message<T>) -> Seq<char> {
    "unexpected message: "@ + message_label(m)
}

/// The gene type a new actor at a path gets: its nearest mapped ancestor's, else a gauge.
pub open spec fn gene_type_for(m: Map<Seq<char>, GeneType>, path: Seq<char>) -> GeneType {
    match nearest_gene(m, path_components(path)) {
        Some(gt) => gt,
        None => GeneType::Gauge,
    }
}

/// A path mapped to `Default` gives its new actors the gauge-and-accumulator gene (gauges
/// on 0..100, accumulators on 100..200), whatever else is mapped.
pub proof fn lemma_default_mapping_gives_ranges(m: Map<Seq<char>, GeneType>, p: Seq<char>)
    requires
        path_components(p).len() > 0,
        crate::paths::joined_path(path_components(p)) == p,
    ensures
        layout_of_type(gene_type_for(m.insert(p, GeneType::Default), p)) == (OperatorLayout::Ranges {
            gauge_first: 0,
            gauge_slots: 100,
            accum_first: 100,
            accum_slots: 100,
        }),
{
    crate::registry::lemma_mapped_path_finds_its_gene(m, p, GeneType::Default);
    crate::actor::lemma_gene_of_each_type(GeneType::Default);
}

/// This struct represents a graph director: it keeps the path-to-gene mappings of a
/// namespace and decides where each message goes.
pub struct Director {
    pub namespace: String,
    pub gene_path_map: GenePathMap,
    /// the paths that have a live actor, in the order they were started
    pub live_paths: Vec<String>,
}

/// What to do for a message bound for the actor at a path.
pub enum ActorPlan {
    /// the path has a live actor: send to it
    Reuse,
    /// start an actor with this gene, rebuilding its state from the journal first when
    /// `integrate` says so
    Create { gene: AnyGene, integrate: bool },
}

/// The mappings after the init read of a mapping journal: each mapping (or gene-mapping
/// content naming a gene type) up to the first end of stream goes into `m`, in order (a
/// later mapping of a path wins); anything else is passed over.
pub open spec fn mappings_replayed<T>(m: Map<Seq<char>, GeneType>, msgs: Seq<Message<T>>) -> Map<Seq<char>, GeneType>
    decreases msgs.len(),
{
    if msgs.len() == 0 {
        m
    } else {
        match msgs[0] {
            Message::EndOfStream {} => m,
            Message::GeneMapping { path, gene_type } => mappings_replayed(m.insert(path@, gene_type), msgs.drop_first()),
            Message::Content { path: Some(path), text, hint: MtHint::GeneMapping } => match gene_type_from_code(text@) {
                Some(gene_type) => mappings_replayed(m.insert(path@, gene_type), msgs.drop_first()),
                None => mappings_replayed(m, msgs.drop_first()),
            },
            _ => mappings_replayed(m, msgs.drop_first()),
        }
    }
}

/// `entry` is the journal form of mapping `path` to `gt`: gene-mapping content holding the
/// gene type's stored name.
pub open spec fn is_mapping_entry<T>(entry: Message<T>, path: Seq<char>, gt: GeneType) -> bool {
    entry matches Message::Content { path: Some(q), text, hint: MtHint::GeneMapping } && q@ == path
        && text@ == gene_type_code(gt)
}

/// Journaled gene mappings come back as they went in: the entry the director journals
/// for a mapping, once the store has written it and read it back, puts the same mapping
/// into a registry at init.
pub proof fn lemma_mapping_roundtrip<T>(
    path: Seq<char>,
    gt: GeneType,
    entry: Message<T>,
    sequence: time::OffsetDateTime,
    disable_duplicate_detection: bool,
    action: StoreAction<T>,
    back: Message<T>,
    m: Map<Seq<char>, GeneType>,
)
    requires
        is_mapping_entry(entry, path, gt),
        routed(entry, sequence, disable_duplicate_detection, action),
        action matches StoreAction::InsertMapping { path: p, text } && mapping_read(p@, text@, back),
    ensures
        mappings_replayed(m, seq![back]) == m.insert(path, gt),
        mappings_counted(seq![back]) == 1,
{
    lemma_gene_code_roundtrip(gt);
    let one = seq![back];
    assert(one[0] == back);
    assert(one.drop_first() =~= Seq::<Message<T>>::empty());
    assert(mappings_replayed(m.insert(path, gt), Seq::<Message<T>>::empty()) == m.insert(path, gt));
    assert(mappings_counted(Seq::<Message<T>>::empty()) == 0);
}

/// The number of mappings the init read takes in: those before the first end of stream.
pub open spec fn mappings_counted<T>(msgs: Seq<Message<T>>) -> nat
    decreases msgs.len(),
{
    if msgs.len() == 0 {
        0
    } else {
        match msgs[0] {
            Message::EndOfStream {} => 0,
            Message::GeneMapping { .. } => 1 + mappings_counted(msgs.drop_first()),
            Message::Content { path: Some(_), text, hint: MtHint::GeneMapping } => if gene_type_from_code(text@) is Some {
                1 + mappings_counted(msgs.drop_first())
            } else {
                mappings_counted(msgs.drop_first())
            },
            _ => mappings_counted(msgs.drop_first()),
        }
    }
}

proof fn lemma_mappings_counted_bound<T>(msgs: Seq<Message<T>>)
    ensures
        mappings_counted(msgs) <= msgs.len(),
    decreases msgs.len(),
{
    if msgs.len() > 0 {
        lemma_mappings_counted_bound(msgs.drop_first());
    }
}

impl Director {
    /// A director for a namespace, with no mappings yet.
    pub fn new(namespace: String) -> (r: Self)
        ensures
            r.namespace == namespace,
            r.gene_path_map.well_formed(),
            r.gene_path_map.view() == Map::<Seq<char>, GeneType>::empty(),
            r.gene_path_map.entry_seq() == Seq::<(Seq<char>, GeneType)>::empty(),
            r.live_paths@ == Seq::<String>::empty(),
            r.live_set() == Set::<Seq<char>>::empty(),
    {
        let r = Director { namespace, gene_path_map: GenePathMap::new(), live_paths: Vec::new() };
        assert(r.live_set() =~= Set::<Seq<char>>::empty());
        r
    }

    /// The paths that have a live actor.
    pub open spec fn live_set(&self) -> Set<Seq<char>> {
        self.live_paths@.map_values(|p: String| p@).to_set()
    }

    /// Decides the actor for a message bound for `path`: a path with a live actor reuses
    /// it; any other path gets a new actor with the gene of its nearest mapped ancestor
    /// (a gauge gene where none is mapped), rebuilt from the journal when there is a
    /// store, and counts as live from then on.
    pub fn enlist(&mut self, path: &str, has_store: bool) -> (r: ActorPlan)
        requires
            old(self).gene_path_map.well_formed(),
        ensures
            final(self).namespace == old(self).namespace,
            final(self).gene_path_map == old(self).gene_path_map,
            final(self).live_set() == old(self).live_set().insert(path@),
            old(self).live_set().contains(path@) ==> r is Reuse,
            !old(self).live_set().contains(path@) ==> (r matches ActorPlan::Create { gene, integrate }
                && integrate == has_store && gene.gene_well_formed() && gene.gene_layout()
                == layout_of_type(gene_type_for(old(self).gene_path_map.view(), path@))
                && gene.gene_scope() == crate::gene::TimeScope::Forever),
    {
        let mut i: usize = 0;
        while i < self.live_paths.len()
            invariant
                i <= self.live_paths@.len(),
                forall|j: int| 0 <= j < i ==> self.live_paths@[j]@ != path@,
            decreases self.live_paths@.len() - i,
        {
            if crate::text::str_eq(self.live_paths[i].as_str(), path) {
                proof {
                    assert(self.live_paths@.map_values(|p: String| p@)[i as int] == path@);
                    assert(self.live_set().insert(path@) =~= self.live_set());
                }
                return ActorPlan::Reuse;
            }
            i = i + 1;
        }
        let gene = self.gene_for_path(path);
        let ghost before = self.live_paths@;
        self.live_paths.push(String::from_str(path));
        proof {
            let views = before.map_values(|p: String| p@);
            assert(self.live_paths@.map_values(|p: String| p@) =~= views.push(path@));
            assert(!views.contains(path@)) by {
                if views.contains(path@) {
                    let j = choose|j: int| 0 <= j < views.len() && views[j] == path@;
                    assert(before[j]@ == path@);
                }
            }
            assert(views.push(path@).to_set() =~= views.to_set().insert(path@)) by {
                vstd::seq_lib::lemma_seq_contains_after_push(views, path@, path@);
                assert forall|q: Seq<char>| views.push(path@).to_set().contains(q) == views.to_set().insert(path@).contains(q) by {
                    if views.push(path@).contains(q) && q != path@ {
                        let j = choose|j: int| 0 <= j < views.push(path@).len() && views.push(path@)[j] == q;
                        assert(views[j] == q);
                    }
                    if views.contains(q) {
                        let j = choose|j: int| 0 <= j < views.len() && views[j] == q;
                        assert(views.push(path@)[j] == q);
                    }
                    if q == path@ {
                        assert(views.push(path@)[views.len() as int] == q);
                    }
                }
            }
        }
        ActorPlan::Create { gene, integrate: has_store }
    }

    /// Reads a mapping journal at init: folds `absorb_mapping` over `msgs` up to the first
    /// end of stream, and returns how many mappings it took in.
    pub fn replay_mappings<T>(&mut self, msgs: Vec<Message<T>>) -> (count: usize)
        requires
            old(self).gene_path_map.well_formed(),
        ensures
            final(self).namespace == old(self).namespace,
            final(self).live_paths == old(self).live_paths,
            final(self).gene_path_map.well_formed(),
            final(self).gene_path_map.view() == mappings_replayed(old(self).gene_path_map.view(), msgs@),
            count == mappings_counted(msgs@),
    {
        let ghost m0 = self.gene_path_map.view();
        let ghost orig = msgs@;
        let mut rest = msgs;
        let n = rest.len();
        let mut count: usize = 0;
        let mut done = false;
        proof {
            lemma_mappings_counted_bound(orig);
        }
        while !done && rest.len() > 0
            invariant
                self.namespace == old(self).namespace,
                self.live_paths == old(self).live_paths,
                self.gene_path_map.well_formed(),
                m0 == old(self).gene_path_map.view(),
                orig == msgs@,
                orig.len() == n,
                mappings_counted(orig) <= orig.len(),
                !done ==> mappings_replayed(m0, orig) == mappings_replayed(self.gene_path_map.view(), rest@),
                !done ==> count + mappings_counted(rest@) == mappings_counted(orig),
                done ==> mappings_replayed(m0, orig) == self.gene_path_map.view(),
                done ==> count == mappings_counted(orig),
            decreases rest@.len(),
        {
            let ghost before = rest@;
            let m = rest.remove(0);
            assert(before.drop_first() == rest@);
            proof {
                lemma_mappings_counted_bound(rest@);
            }
            match self.absorb_mapping(m) {
                MappingReplay::Stop => {
                    done = true;
                },
                MappingReplay::Counted => {
                    count = count + 1;
                },
                MappingReplay::Skipped => {},
            }
        }
        count
    }

    /// The gene type a new actor at `path` gets.
    pub fn gene_type_for_path(&self, path: &str) -> (r: GeneType)
        requires
            self.gene_path_map.well_formed(),
        ensures
            r == gene_type_for(self.gene_path_map.view(), path@),
    {
        match self.gene_path_map.find_gene_type(path) {
            Some(gt) => gt,
            None => GeneType::Gauge,
        }
    }

    /// The gene a new actor at `path` gets.
    pub fn gene_for_path(&self, path: &str) -> (r: AnyGene)
        requires
            self.gene_path_map.well_formed(),
        ensures
            r.gene_well_formed(),
            r.gene_layout() == layout_of_type(gene_type_for(self.gene_path_map.view(), path@)),
            r.gene_scope() == crate::gene::TimeScope::Forever,
    {
        get_gene(self.gene_type_for_path(path))
    }

    /// The director's decision for one message.
    pub fn route<T>(&mut self, message: Message<T>) -> (r: DirectorAction<T>)
        requires
            old(self).gene_path_map.well_formed(),
        ensures
            final(self).namespace == old(self).namespace,
            final(self).live_paths == old(self).live_paths,
            final(self).gene_path_map.well_formed(),
            !(message is GeneMapping) ==> final(self).gene_path_map == old(self).gene_path_map,
            match message {
                Message::InitCmd {} => r is LoadMappings,
                Message::GeneMapping { path, gene_type } => r matches DirectorAction::RecordMapping { message: m, entry } && m == message
                    && is_mapping_entry(entry, path@, gene_type)
                    && final(self).gene_path_map.view() == old(self).gene_path_map.view().insert(path@, gene_type)
                    && inserted_entry(old(self).gene_path_map.entry_seq(), path@, gene_type, final(self).gene_path_map.entry_seq()),
                Message::Content { path, hint: MtHint::GeneMappingQuery, .. } => {
                    let p = match path {
                        Some(p) => p@,
                        None => Seq::<char>::empty(),
                    };
                    if old(self).gene_path_map.view().contains_key(p) {
                        r matches DirectorAction::Respond(Ok(Message::GeneMapping { path: q, gene_type })) && q@ == p
                            && gene_type == old(self).gene_path_map.view()[p]
                    } else {
                        r matches DirectorAction::Respond(Ok(Message::NotFound { path: q })) && q@ == p
                    }
                },
                Message::Observations { path, .. } => r matches DirectorAction::ToActor { path: q, message: m } && q@ == path@ && m == message,
                Message::Query { path, hint: MtHint::State } => r matches DirectorAction::ToActor { path: q, message: m } && q@ == path@ && m == message,
                Message::Query { path, hint: MtHint::GeneMapping } => r matches DirectorAction::Report(Message::Content { text, hint: MtHint::GeneMapping, path: None }) && text@ == explain_report(old(self).gene_path_map.entry_seq(), path@),
                Message::EndOfStream {} => r matches DirectorAction::Report(m) && m is EndOfStream,
                _ => r matches DirectorAction::Respond(Err(e)) && e.reason@ == unexpected_reason(message),
            },
    {
        match message {
            Message::InitCmd {} => DirectorAction::LoadMappings,
            Message::GeneMapping { path, gene_type } => {
                let p = path.clone();
                let q = path.clone();
                self.gene_path_map.insert(p, gene_type);
                let entry = Message::Content { path: Some(q), text: gene_type.to_code(), hint: MtHint::GeneMapping };
                DirectorAction::RecordMapping { message: Message::GeneMapping { path, gene_type }, entry }
            },
            Message::Content { path, hint: MtHint::GeneMappingQuery, text } => {
                let p = match path {
                    Some(p) => p,
                    None => String::new(),
                };
                match self.gene_path_map.get(&p) {
                    Some(gt) => DirectorAction::Respond(Ok(Message::GeneMapping { path: p, gene_type: gt })),
                    None => DirectorAction::Respond(Ok(Message::NotFound { path: p })),
                }
            },
            Message::Observations { path, datetime, values } => {
                let q = path.clone();
                DirectorAction::ToActor { path: q, message: Message::Observations { path, datetime, values } }
            },
            Message::Query { path, hint: MtHint::State } => {
                let q = path.clone();
                DirectorAction::ToActor { path: q, message: Message::Query { path, hint: MtHint::State } }
            },
            Message::Query { path, hint: MtHint::GeneMapping } => {
                let text = self.gene_path_map.explain(path.as_str());
                DirectorAction::Report(Message::Content { path: None, text, hint: MtHint::GeneMapping })
            },
            Message::EndOfStream {} => DirectorAction::Report(Message::EndOfStream {}),
            m => {
                let mut reason = String::from_str("unexpected message: ");
                let label = m.to_display_string();
                reason.append(label.as_str());
                DirectorAction::Respond(Err(NvError { reason }))
            },
        }
    }

    /// One entry of the mapping journal read at init: the end of the stream stops the
    /// read, a mapping (or gene-mapping content naming a gene type) goes into the registry,
    /// anything else is passed over.
    pub fn absorb_mapping<T>(&mut self, message: Message<T>) -> (r: MappingReplay)
        requires
            old(self).gene_path_map.well_formed(),
        ensures
            final(self).namespace == old(self).namespace,
            final(self).live_paths == old(self).live_paths,
            final(self).gene_path_map.well_formed(),
            match message {
                Message::EndOfStream {} => r == MappingReplay::Stop && final(self).gene_path_map == old(self).gene_path_map,
                Message::GeneMapping { path, gene_type } => r == MappingReplay::Counted
                    && final(self).gene_path_map.view() == old(self).gene_path_map.view().insert(path@, gene_type)
                    && inserted_entry(old(self).gene_path_map.entry_seq(), path@, gene_type, final(self).gene_path_map.entry_seq()),
                Message::Content { path: Some(path), text, hint: MtHint::GeneMapping } => match gene_type_from_code(text@) {
                    Some(gene_type) => r == MappingReplay::Counted
                        && final(self).gene_path_map.view() == old(self).gene_path_map.view().insert(path@, gene_type)
                        && inserted_entry(old(self).gene_path_map.entry_seq(), path@, gene_type, final(self).gene_path_map.entry_seq()),
                    None => r == MappingReplay::Skipped && final(self).gene_path_map == old(self).gene_path_map,
                },
                _ => r == MappingReplay::Skipped && final(self).gene_path_map == old(self).gene_path_map,
            },
    {
        match message {
            Message::EndOfStream {} => MappingReplay::Stop,
            Message::GeneMapping { path, gene_type } => {
                self.gene_path_map.insert(path, gene_type);
                MappingReplay::Counted
            },
            Message::Content { path: Some(path), text, hint: MtHint::GeneMapping } => {
                match parse_gene_type_code(text.as_str()) {
                    Some(gene_type) => {
                        self.gene_path_map.insert(path, gene_type);
                        MappingReplay::Counted
                    },
                    None => MappingReplay::Skipped,
                }
            },
            _ => MappingReplay::Skipped,
        }
    }
}

/// How a message bound for an actor is journaled: observations go to the store when there
/// is one and count as persisted when there is none; state queries are not journaled;
/// anything else is refused.
pub fn journal_plan<T>(message: &Message<T>, has_store: bool) -> (r: JournalPlan<T>)
    ensures
        match *message {
            Message::Observations { .. } => if has_store {
                r is Journal
            } else {
                r matches JournalPlan::Done(Ok(m)) && m is Persisted
            },
            Message::Query { .. } => r matches JournalPlan::Done(Ok(m)) && m is Persisted,
            _ => r matches JournalPlan::Done(Err(e)) && e.reason@ == "unexpected msg"@,
        },
{
    match message {
        Message::Observations { .. } => if has_store {
            JournalPlan::Journal
        } else {
            JournalPlan::Done(Ok(Message::Persisted))
        },
        Message::Query { .. } => JournalPlan::Done(Ok(Message::Persisted)),
        _ => JournalPlan::Done(Err(NvError { reason: String::from_str("unexpected msg") })),
    }
}

/// The database's error for a row whose key is already journaled.
pub open spec fn is_duplicate_error(reason: Seq<char>) -> bool {
    contains_text(reason, "UNIQUE constraint failed"@)
}

/// What follows a journal outcome: a written row (the store answers the end of the
/// stream; without a store the message counts as persisted) is delivered; a duplicate,
/// which the store reports as the database's unique-constraint error, is answered with a
/// constraint violation; any other outcome is answered as it is.
pub fn after_journal<T>(jrnled: NvResult<Message<T>>) -> (r: AfterJournal<T>)
    ensures
        (jrnled matches Ok(m) && (m is Persisted || m is EndOfStream)) ==> r is Deliver,
        (jrnled matches Ok(m) && m is ConstraintViolation) ==> (r matches AfterJournal::Respond(Ok(m)) && m is ConstraintViolation),
        (jrnled matches Err(e) && is_duplicate_error(e.reason@)) ==> (r matches AfterJournal::Respond(Ok(m)) && m is ConstraintViolation),
        !(jrnled matches Ok(m) && (m is Persisted || m is EndOfStream || m is ConstraintViolation))
            && !(jrnled matches Err(e) && is_duplicate_error(e.reason@)) ==> r == AfterJournal::Respond(jrnled),
{
    match jrnled {
        Ok(Message::Persisted) => AfterJournal::Deliver,
        Ok(Message::EndOfStream {}) => AfterJournal::Deliver,
        Ok(Message::ConstraintViolation {}) => AfterJournal::Respond(Ok(Message::ConstraintViolation {})),
        Err(e) => {
            if contains_str(e.reason.as_str(), "UNIQUE constraint failed") {
                AfterJournal::Respond(Ok(Message::ConstraintViolation {}))
            } else {
                AfterJournal::Respond(Err(e))
            }
        },
        other => AfterJournal::Respond(other),
    }
}

/// The answer to a gene mapping: the mapping itself when it was journaled or there is no
/// store (`journaled` is `None`), else the store's error.
pub fn mapping_reply<T>(message: Message<T>, journaled: Option<NvResult<Message<T>>>) -> (r: NvResult<Message<T>>)
    ensures
        match journaled {
            Some(Err(e)) => r matches Err(f) && f.reason@ == e.reason@,
            _ => r == Ok::<Message<T>, NvError>(message),
        },
{
    match journaled {
        Some(Err(e)) => Err(NvError { reason: e.to_display_string() }),
        _ => Ok(message),
    }
}

} // verus!
