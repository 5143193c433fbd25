//! The messages actors exchange, the hints that say what a text payload means,
//! and the error that replies carry.
use crate::gene::GeneType;
use std::collections::HashMap;
use time::OffsetDateTime;
use vstd::prelude::*;

verus! {

/// The error an actor replies with.
#[derive(Debug, Clone)]
pub struct NvError {
    pub reason: String,
}

impl NvError {
    /// The text the error displays: its reason.
    pub fn to_display_string(&self) -> (r: String)
        ensures
            r@ == self.reason@,
    {
        self.reason.clone()
    }
}

/// The reply of an `ask`: a message or an error.
pub type NvResult<T> = Result<T, NvError>;

/// A query for the state at a path, as written in JSON.
#[derive(Debug)]
pub struct PathQuery {
    pub path: String,
}

/// A mapping of a path to a gene type, as written in JSON.
#[derive(Debug)]
pub struct GeneMapping {
    pub path: String,
    pub gene_type: String,
}

/// What a text payload or a query is about.
#[derive(Debug, Clone, Copy, PartialEq, Eq, Structural)]
pub enum MtHint {
    Update,
    Query,
    GeneMapping,
    GeneMappingQuery,
    State,
}

/// The text a hint displays.
pub open spec fn hint_label(h: MtHint) -> Seq<char> {
    match h {
        MtHint::Query => "[query]"@,
        MtHint::Update => "[update]"@,
        MtHint::GeneMapping => "[gene mapping]"@,
        MtHint::GeneMappingQuery => "[gene mapping query]"@,
        MtHint::State => "[state]"@,
    }
}

impl MtHint {
    /// The text the hint displays.
    pub fn to_display_string(&self) -> (r: String)
        ensures
            r@ == hint_label(*self),
    {
        match self {
            MtHint::Query => String::from_str("[query]"),
            MtHint::Update => String::from_str("[update]"),
            MtHint::GeneMapping => String::from_str("[gene mapping]"),
            MtHint::GeneMappingQuery => String::from_str("[gene mapping query]"),
            MtHint::State => String::from_str("[state]"),
        }
    }
}

/// all actor API interaction is via async messages
#[derive(Debug, Clone)]
pub enum Message<T> {
    /// asks for the state (or the gene mappings) at a path
    Query { path: String, hint: MtHint },
    /// new observations for the actor at a path
    Observations { datetime: OffsetDateTime, path: String, values: HashMap<i32, T> },
    /// the response to most Query/ask interactions
    StateReport { datetime: OffsetDateTime, path: String, values: HashMap<i32, T> },
    /// a path mapped to a gene type
    GeneMapping { path: String, gene_type: GeneType },
    /// nothing is known at the path
    NotFound { path: String },
    /// the journal recorded the message
    Persisted,
    /// the journal already holds an entry with the same key
    ConstraintViolation {},
    /// completes a stream or a run
    EndOfStream {},
    /// tells an actor to rebuild its state from the stream in its envelope
    InitCmd {},
    /// tells the journal to stream the entries at a path
    LoadCmd { path: String, hint: MtHint },
    /// tells the input actor to read all its input
    ReadAllCmd {},
    /// an undecoded text payload
    Content { text: String, hint: MtHint, path: Option<String> },
}

/// The text a message displays.
pub open spec fn message_label<T>(m: Message<T>) -> Seq<char> {
    match m {
        Message::Content { text, hint, path } => match path {
            None => "[Content "@ + hint_label(hint) + ":"@ + text@ + "]"@,
            Some(p) => "[Content "@ + p@ + " "@ + hint_label(hint) + ":"@ + text@ + "]"@,
        },
        Message::LoadCmd { path, .. } => "[LoadCmd "@ + path@ + "]"@,
        Message::ReadAllCmd {} => "[ReadAllCmd]"@,
        Message::InitCmd {} => "[InitCmd]"@,
        Message::EndOfStream {} => "[EndOfStream]"@,
        Message::StateReport { .. } => "[StateReport]"@,
        Message::Observations { .. } => "[Observations]"@,
        Message::Query { .. } => "[Query]"@,
        Message::GeneMapping { .. } => "[GeneMapping]"@,
        Message::NotFound { .. } => "[NotFound]"@,
        Message::Persisted => "[Persisted]"@,
        Message::ConstraintViolation {} => "[ConstraintViolation]"@,
    }
}

impl<T> Message<T> {
    /// The text the message displays.
    pub fn to_display_string(&self) -> (r: String)
        ensures
            r@ == message_label(*self),
    {
        match self {
            Message::Content { text, hint, path } => {
                let mut s = String::from_str("[Content ");
                match path {
                    Some(p) => {
                        s.append(p.as_str());
                        s.append(" ");
                    },
                    None => {},
                }
                let h = hint.to_display_string();
                s.append(h.as_str());
                s.append(":");
                s.append(text.as_str());
                s.append("]");
                proof {
                    match path {
                        Some(p) => {
                            assert(s@ =~= "[Content "@ + p@ + " "@ + hint_label(*hint) + ":"@
                                + text@ + "]"@);
                        },
                        None => {
                            assert(s@ =~= "[Content "@ + hint_label(*hint) + ":"@ + text@
                                + "]"@);
                        },
                    }
                }
                s
            },
            Message::LoadCmd { path, .. } => {
                let mut s = String::from_str("[LoadCmd ");
                s.append(path.as_str());
                s.append("]");
                s
            },
            Message::ReadAllCmd {} => String::from_str("[ReadAllCmd]"),
            Message::InitCmd {} => String::from_str("[InitCmd]"),
            Message::EndOfStream {} => String::from_str("[EndOfStream]"),
            Message::StateReport { .. } => String::from_str("[StateReport]"),
            Message::Observations { .. } => String::from_str("[Observations]"),
            Message::Query { .. } => String::from_str("[Query]"),
            Message::GeneMapping { .. } => String::from_str("[GeneMapping]"),
            Message::NotFound { .. } => String::from_str("[NotFound]"),
            Message::Persisted => String::from_str("[Persisted]"),
            Message::ConstraintViolation {} => String::from_str("[ConstraintViolation]"),
        }
    }
}

} // verus!
