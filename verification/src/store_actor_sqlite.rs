//! The journal store's decisions: what each message asks of the database, which key a
//! journaled observation is stored under, how insert outcomes are answered, and how
//! stored rows come back as messages.  The store actor runs the SQL.
use crate::gene::{gene_type_code, GeneType};
use crate::message::{message_label, Message, MtHint, NvError, NvResult};
use crate::nvtime::{from_unix_timestamp_of, persisted_form, unix_timestamp_of, OffsetDateTimeWrapper, UNIX_TIMESTAMP_MAX, UNIX_TIMESTAMP_MIN};
use crate::text::str_eq;
use std::collections::HashMap;
use time::OffsetDateTime;
use vstd::prelude::*;

verus! {

/// The error of the store.
#[derive(Debug, Clone)]
pub struct StoreError {
    pub reason: String,
}

impl StoreError {
    /// The text the error displays.
    pub fn to_display_string(&self) -> (r: String)
        ensures
            r@ == "bad actor state: "@ + self.reason@,
    {
        let mut s = String::from_str("bad actor state: ");
        s.append(self.reason.as_str());
        s
    }
}

/// Whether a stream is closed after a message is sent on it.
#[derive(Debug, Clone, Copy, PartialEq, Eq, Structural)]
pub enum StreamOption {
    Close,
    LeaveOpen,
}

/// What the store does with a message.
pub enum StoreAction<T> {
    /// journal observations for `path`, keyed by (`path`, `timestamp`)
    InsertUpdate { path: String, timestamp: OffsetDateTime, sequence: OffsetDateTime, values: HashMap<i32, T> },
    /// record that `path` is mapped to the gene named `text`
    InsertMapping { path: String, text: String },
    /// stream the journal of `path`, then end the stream
    LoadJournal { path: String },
    /// stream the stored mappings, then end the stream
    LoadMappings { path: String },
    /// nothing to do; `label` names the message
    Unexpected { label: String },
}

/// The timestamp an observation is journaled under: the observation's own datetime, so
/// that a second report for the same path and datetime is a duplicate; or, with duplicate
/// detection disabled, the arrival sequence, so that every report is kept.
pub open spec fn journal_timestamp(datetime: OffsetDateTime, sequence: OffsetDateTime, disable_duplicate_detection: bool) -> OffsetDateTime {
    if disable_duplicate_detection {
        sequence
    } else {
        datetime
    }
}

/// What the store does with a message: observations are inserted at their journal
/// timestamp, gene-mapping content is inserted as its text, load commands stream the
/// journal or the mappings back, and anything else is unexpected.
pub open spec fn routed<T>(message: Message<T>, sequence: OffsetDateTime, disable_duplicate_detection: bool, r: StoreAction<T>) -> bool {
    match message {
        Message::Observations { path, datetime, values } => r matches StoreAction::InsertUpdate { path: p, timestamp, sequence: q, values: v }
            && p@ == path@ && timestamp == journal_timestamp(datetime, sequence, disable_duplicate_detection) && q == sequence && v@ == values@,
        Message::Content { path: Some(path), text, hint: MtHint::GeneMapping } => r matches StoreAction::InsertMapping { path: p, text: t }
            && p@ == path@ && t@ == text@,
        Message::LoadCmd { path, hint: MtHint::GeneMapping } => r matches StoreAction::LoadMappings { path: p } && p@ == path@,
        Message::LoadCmd { path, hint: MtHint::Update } => r matches StoreAction::LoadJournal { path: p } && p@ == path@,
        _ => r matches StoreAction::Unexpected { label } && label@ == message_label(message),
    }
}

/// The store's decision for one message; `sequence` is the time the message arrived.
pub fn store_route<T>(message: Message<T>, sequence: OffsetDateTime, disable_duplicate_detection: bool) -> (r: StoreAction<T>)
    ensures
        routed(message, sequence, disable_duplicate_detection, r),
{
    match message {
        Message::Observations { path, datetime, values } => {
            let timestamp = if disable_duplicate_detection {
                sequence
            } else {
                datetime
            };
            StoreAction::InsertUpdate { path, timestamp, sequence, values }
        },
        Message::Content { path: Some(path), text, hint: MtHint::GeneMapping } => StoreAction::InsertMapping { path, text },
        Message::LoadCmd { path, hint: MtHint::GeneMapping } => StoreAction::LoadMappings { path },
        Message::LoadCmd { path, hint: MtHint::Update } => StoreAction::LoadJournal { path },
        m => StoreAction::Unexpected { label: m.to_display_string() },
    }
}

/// The database file of a namespace: the namespace with `.db` appended.
pub fn db_url(namespace: &str) -> (r: String)
    ensures
        r@ == namespace@ + ".db"@,
{
    let mut s = String::from_str(namespace);
    s.append(".db");
    s
}

/// The outcome of a journal insert, as the database reported it.
pub enum InsertOutcome {
    /// the row was written
    Inserted,
    /// the insert failed with this error text (a row with the same key included)
    Failed(String),
}

/// The store's answer to a journal insert: the end of the stream once the row is
/// written, and the database's error text when it is not.
pub fn insert_reply<T>(outcome: InsertOutcome) -> (r: NvResult<Message<T>>)
    ensures
        match outcome {
            InsertOutcome::Inserted => r matches Ok(m) && m is EndOfStream,
            InsertOutcome::Failed(reason) => r matches Err(e) && e.reason@ == reason@,
        },
{
    match outcome {
        InsertOutcome::Inserted => Ok(Message::EndOfStream {}),
        InsertOutcome::Failed(reason) => Err(NvError { reason }),
    }
}

/// The gene type a stored name stands for.
pub open spec fn gene_type_from_code(text: Seq<char>) -> Option<GeneType> {
    if text == "Accum"@ {
        Some(GeneType::Accum)
    } else if text == "Gauge"@ {
        Some(GeneType::Gauge)
    } else if text == "GaugeAndAccum"@ {
        Some(GeneType::GaugeAndAccum)
    } else if text == "Default"@ {
        Some(GeneType::Default)
    } else {
        None
    }
}

/// Reads a stored gene type name.
pub fn parse_gene_type_code(text: &str) -> (r: Option<GeneType>)
    ensures
        r == gene_type_from_code(text@),
{
    if str_eq(text, "Accum") {
        Some(GeneType::Accum)
    } else if str_eq(text, "Gauge") {
        Some(GeneType::Gauge)
    } else if str_eq(text, "GaugeAndAccum") {
        Some(GeneType::GaugeAndAccum)
    } else if str_eq(text, "Default") {
        Some(GeneType::Default)
    } else {
        None
    }
}

/// A stored mapping reads back as the mapping that was stored: the name a gene type is
/// stored under reads back as that gene type.
pub proof fn lemma_gene_code_roundtrip(gt: GeneType)
    ensures
        gene_type_from_code(gene_type_code(gt)) == Some(gt),
{
    reveal_strlit("Accum");
    reveal_strlit("Gauge");
    reveal_strlit("GaugeAndAccum");
    reveal_strlit("Default");
    assert("Accum"@[0] != "Gauge"@[0]);
    assert("Accum"@[0] != "GaugeAndAccum"@[0]);
    assert("Accum"@ != "Gauge"@);
    assert("Accum"@ != "GaugeAndAccum"@);
    assert("Accum"@ != "Default"@);
    assert("Gauge"@.len() != "GaugeAndAccum"@.len());
    assert("Gauge"@ != "GaugeAndAccum"@);
    assert("Gauge"@ != "Default"@);
    assert("GaugeAndAccum"@ != "Default"@);
}

/// The message a stored mapping row becomes: gene-mapping content with the row's path
/// and text.
pub open spec fn mapping_read<T>(path: Seq<char>, text: Seq<char>, r: Message<T>) -> bool {
    r matches Message::Content { path: Some(p), text: t, hint: MtHint::GeneMapping } && p@ == path
        && t@ == text
}

/// The message a journal row becomes: observations for the row's path and values, dated
/// by the datetime the row's unix timestamp reads back as; a timestamp outside the range
/// `OffsetDateTime` holds is dated `now`.
pub open spec fn journal_read<T>(path: Seq<char>, datetime_num: i64, values: Map<i32, T>, now: OffsetDateTime, r: Message<T>) -> bool {
    &&& r matches Message::Observations { path: p, datetime, values: v } && p@ == path && v@ == values
    &&& (UNIX_TIMESTAMP_MIN <= datetime_num <= UNIX_TIMESTAMP_MAX ==> (r matches Message::Observations {
        datetime,
        ..
    } && unix_timestamp_of(datetime) == datetime_num && from_unix_timestamp_of(datetime_num)
        == Ok::<OffsetDateTime, time::error::ComponentRange>(datetime)))
    &&& (!(UNIX_TIMESTAMP_MIN <= datetime_num <= UNIX_TIMESTAMP_MAX) ==> (r matches Message::Observations {
        datetime,
        ..
    } && datetime == now))
}

/// Journaled observations come back as they went in: the row the store writes for them
/// (the journal timestamp persisted as its unix timestamp) reads back as observations for
/// the same path, with the same values, at the journal timestamp's unix timestamp; for every
/// journal timestamp in `UNIX_TIMESTAMP_MIN..=UNIX_TIMESTAMP_MAX`.
pub proof fn lemma_journal_roundtrip<T>(
    message: Message<T>,
    sequence: OffsetDateTime,
    disable_duplicate_detection: bool,
    action: StoreAction<T>,
    now: OffsetDateTime,
    back: Message<T>,
)
    requires
        message is Observations,
        routed(message, sequence, disable_duplicate_detection, action),
        action matches StoreAction::InsertUpdate { path, timestamp, values, .. } && journal_read(
            path@,
            persisted_form(timestamp).datetime_num,
            values@,
            now,
            back,
        ) && UNIX_TIMESTAMP_MIN <= unix_timestamp_of(timestamp) <= UNIX_TIMESTAMP_MAX,
    ensures
        back matches Message::Observations { path, datetime, values } && path@ == message->Observations_path@
            && values@ == message->Observations_values@ && unix_timestamp_of(datetime) == unix_timestamp_of(
            journal_timestamp(message->Observations_datetime, sequence, disable_duplicate_detection),
        ),
{
}

/// A stored mapping row as a message: gene-mapping content with the row's path and text.
pub fn mapping_entry<T>(path: String, text: String) -> (r: Message<T>)
    ensures
        mapping_read(path@, text@, r),
{
    Message::Content { path: Some(path), text, hint: MtHint::GeneMapping }
}

/// A stored journal row as the observations it records, dated by the stored unix
/// timestamp; where the timestamp cannot be a datetime, `now` dates it instead.
pub fn journal_entry<T>(path: String, datetime_num: i64, values: HashMap<i32, T>, now: OffsetDateTime) -> (r: Message<T>)
    ensures
        journal_read(path@, datetime_num, values@, now, r),
{
    let w = OffsetDateTimeWrapper { datetime_num };
    let datetime = match w.to_ts() {
        Ok(dt) => dt,
        Err(_) => now,
    };
    Message::Observations { path, datetime, values }
}

} // verus!
