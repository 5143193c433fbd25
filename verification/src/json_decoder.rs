//! The JSON decoder's decisions: which text payloads are decoded into which messages,
//! and what a decoded query, mapping or set of observations becomes.  Reading the JSON
//! text into these records is done by the decoder actor.
use crate::message::{GeneMapping, Message, MtHint, NvError, PathQuery};
use crate::nvtime::{extract_datetime, iso8601_parse};
use crate::store_actor_sqlite::{gene_type_from_code, parse_gene_type_code};
use std::collections::HashMap;
use vstd::prelude::*;

verus! {

/// Observations as written in JSON: a path, an ISO 8601 datetime and values by index.
pub struct Observations<T> {
    pub datetime: String,
    pub values: HashMap<i32, T>,
    pub path: String,
}

/// What the decoder does with a message.
pub enum DecodeAction<T> {
    /// read the text as a path query, then send `query_message` of it
    ParseQuery { text: String },
    /// read the text as observations, then send `observations_message` of them
    ParseUpdate { text: String },
    /// read the text as a gene mapping, then send `mapping_message` of it
    ParseMapping { text: String },
    /// pass this message on unchanged
    Forward(Message<T>),
}

/// The decoder's decision for one message: text payloads are decoded by their hint,
/// gene mapping queries are passed on without their text, anything else is passed on.
pub fn decode_route<T>(message: Message<T>) -> (r: DecodeAction<T>)
    ensures
        match message {
            Message::Content { text, hint: MtHint::Query, .. } => r matches DecodeAction::ParseQuery { text: t } && t@ == text@,
            Message::Content { text, hint: MtHint::Update, .. } => r matches DecodeAction::ParseUpdate { text: t } && t@ == text@,
            Message::Content { text, hint: MtHint::GeneMapping, .. } => r matches DecodeAction::ParseMapping { text: t } && t@ == text@,
            Message::Content { path, hint: MtHint::GeneMappingQuery, .. } => r matches DecodeAction::Forward(Message::Content { path: p, text: t, hint: MtHint::GeneMappingQuery })
                && p == path && t@ == Seq::<char>::empty(),
            _ => r == DecodeAction::Forward(message),
        },
{
    match message {
        Message::Content { text, hint: MtHint::Query, .. } => DecodeAction::ParseQuery { text },
        Message::Content { text, hint: MtHint::Update, .. } => DecodeAction::ParseUpdate { text },
        Message::Content { text, hint: MtHint::GeneMapping, .. } => DecodeAction::ParseMapping { text },
        Message::Content { path, hint: MtHint::GeneMappingQuery, .. } => DecodeAction::Forward(
            Message::Content { path, text: String::new(), hint: MtHint::GeneMappingQuery },
        ),
        m => DecodeAction::Forward(m),
    }
}

/// The state query a path query asks.
pub fn query_message<T>(query: PathQuery) -> (r: Message<T>)
    ensures
        r matches Message::Query { path, hint: MtHint::State } && path@ == query.path@,
{
    Message::Query { path: query.path, hint: MtHint::State }
}

/// The error for text that cannot be decoded.
pub fn json_error(detail: &str) -> (e: NvError)
    ensures
        e.reason@ == "json parse error: "@ + detail@,
{
    let mut reason = String::from_str("json parse error: ");
    reason.append(detail);
    NvError { reason }
}

/// The mapping message of a decoded gene mapping, or an error where the gene type
/// is not one of the gene type names.
pub fn mapping_message<T>(mapping: GeneMapping) -> (r: Result<Message<T>, NvError>)
    ensures
        match gene_type_from_code(mapping.gene_type@) {
            Some(gt) => r matches Ok(Message::GeneMapping { path, gene_type }) && path@ == mapping.path@ && gene_type == gt,
            None => r matches Err(e) && e.reason@ == "json parse error: unknown gene type: "@ + mapping.gene_type@,
        },
{
    match parse_gene_type_code(mapping.gene_type.as_str()) {
        Some(gt) => Ok(Message::GeneMapping { path: mapping.path, gene_type: gt }),
        None => {
            let mut reason = String::from_str("json parse error: unknown gene type: ");
            reason.append(mapping.gene_type.as_str());
            Err(NvError { reason })
        },
    }
}

/// The observations message of decoded observations, dated by their parsed datetime;
/// `None` where the datetime is not ISO 8601 (nothing is sent then).
pub fn observations_message<T>(observations: Observations<T>) -> (r: Option<Message<T>>)
    ensures
        match iso8601_parse(observations.datetime@) {
            Ok(dt) => r matches Some(Message::Observations { datetime, path, values }) && datetime == dt
                && path@ == observations.path@ && values@ == observations.values@,
            Err(_) => r is None,
        },
{
    match extract_datetime(observations.datetime.as_str()) {
        Ok(dt) => Some(Message::Observations { path: observations.path, datetime: dt, values: observations.values }),
        Err(_) => None,
    }
}

} // verus!
