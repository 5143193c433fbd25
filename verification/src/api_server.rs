//! The HTTP API's decisions: the server configuration, the actor path a request names,
//! the gene type a request asks for, and the response each actor reply becomes.  The
//! HTTP server itself runs in the application.
use crate::gene::{gene_type_code, GeneType};
use crate::message::{Message, NvResult};
use crate::paths::{prepend_slash, with_leading_slash};
use crate::text::{chars_of, nat_decimal, push_char, push_decimal, str_eq};
use vstd::prelude::*;

verus! {

/// Where the server listens, how it is known from outside, and its namespace.
pub struct HttpServerConfig {
    pub port: u16,
    pub interface: String,
    pub external_host: String,
    pub namespace: String,
}

impl HttpServerConfig {
    /// A configuration with the defaults for the settings not given: port 8800 on
    /// 127.0.0.1, known as `http://localhost:8800`.
    pub fn new(
        port: Option<u16>,
        interface: Option<String>,
        external_host: Option<String>,
        namespace: String,
    ) -> (r: Self)
        ensures
            r.port == (match port {
                Some(p) => p,
                None => 8800u16,
            }),
            r.interface@ == (match interface {
                Some(i) => i@,
                None => "127.0.0.1"@,
            }),
            r.external_host@ == (match external_host {
                Some(h) => h@,
                None => "http://localhost:8800"@,
            }),
            r.namespace == namespace,
    {
        Self {
            port: match port {
                Some(p) => p,
                None => 8800,
            },
            interface: match interface {
                Some(i) => i,
                None => String::from_str("127.0.0.1"),
            },
            external_host: match external_host {
                Some(h) => h,
                None => String::from_str("http://localhost:8800"),
            },
            namespace,
        }
    }

    /// The text the configuration displays: `[namespace on interface:port as external_host]`.
    pub fn to_display_string(&self) -> (r: String)
        ensures
            r@ == "["@ + self.namespace@ + " on "@ + self.interface@ + ":"@ + nat_decimal(
                self.port as nat,
            ) + " as "@ + self.external_host@ + "]"@,
    {
        let mut s = String::from_str("[");
        s.append(self.namespace.as_str());
        s.append(" on ");
        s.append(self.interface.as_str());
        s.append(":");
        push_decimal(&mut s, self.port as u64);
        s.append(" as ");
        s.append(self.external_host.as_str());
        s.append("]");
        s
    }

    /// The address the server binds: `interface:port`.
    pub fn listen_address(&self) -> (r: String)
        ensures
            r@ == self.interface@ + ":"@ + nat_decimal(self.port as nat),
    {
        let mut s = String::from_str(self.interface.as_str());
        s.append(":");
        push_decimal(&mut s, self.port as u64);
        s
    }

    /// The URL the API is served under as seen from outside: the external host and `/api`.
    pub fn api_target(&self) -> (r: String)
        ensures
            r@ == self.external_host@ + "/api"@,
    {
        let mut s = String::from_str(self.external_host.as_str());
        s.append("/api");
        s
    }
}

/// The number of `/` that `s` starts with.
pub open spec fn leading_slash_count(s: Seq<char>) -> nat
    decreases s.len(),
{
    if s.len() > 0 && s[0] == '/' {
        1 + leading_slash_count(s.drop_first())
    } else {
        0
    }
}

/// `s` without the `/` it starts with.
pub open spec fn trim_leading_slashes(s: Seq<char>) -> Seq<char> {
    s.skip(leading_slash_count(s) as int)
}

/// Removes the `/` that `s` starts with.
pub fn trim_start_slashes(s: &str) -> (r: String)
    ensures
        r@ == trim_leading_slashes(s@),
{
    let cs = chars_of(s);
    let mut i: usize = 0;
    proof {
        assert(s@.skip(0) == s@);
    }
    while i < cs.len() && cs[i] == '/'
        invariant
            cs@ == s@,
            i <= cs@.len(),
            leading_slash_count(s@) == i + leading_slash_count(s@.skip(i as int)),
        decreases cs@.len() - i,
    {
        assert(s@.skip(i as int).drop_first() == s@.skip(i + 1));
        i = i + 1;
    }
    let n = i;
    let mut out = String::new();
    while i < cs.len()
        invariant
            cs@ == s@,
            n <= i <= cs@.len(),
            n == leading_slash_count(s@),
            out@ == s@.subrange(n as int, i as int),
        decreases cs@.len() - i,
    {
        push_char(&mut out, cs[i]);
        i = i + 1;
        assert(out@ == s@.subrange(n as int, i as int));
    }
    assert(s@.subrange(n as int, s@.len() as int) == s@.skip(n as int));
    out
}

/// Where the interactive documentation of `service` is mounted: under the UI path,
/// without the `/` it starts with.
pub open spec fn ui_mount_path(uipath: Option<Seq<char>>, service: Seq<char>) -> Seq<char> {
    let base = match uipath {
        Some(u) => u,
        None => Seq::empty(),
    };
    "/"@ + trim_leading_slashes(base) + "/"@ + service
}

/// Where the interactive documentation of `service` is mounted.
pub fn ui_mount(uipath: &Option<String>, service: &str) -> (r: String)
    ensures
        r@ == ui_mount_path(
            match uipath {
                Some(u) => Some(u@),
                None => None,
            },
            service@,
        ),
{
    let trimmed = match uipath {
        Some(u) => trim_start_slashes(u.as_str()),
        None => {
            let t = trim_start_slashes("");
            proof {
                reveal_strlit("");
            }
            t
        },
    };
    let mut s = String::from_str("/");
    s.append(trimmed.as_str());
    s.append("/");
    s.append(service);
    s
}

/// The actor path a request for `id` under `namespace` names: the two joined, with a
/// leading `/`.
pub fn actor_path(namespace: &str, id: &str) -> (r: String)
    ensures
        r@ == with_leading_slash(namespace@ + id@),
{
    let mut s = String::from_str(namespace);
    s.append(id);
    prepend_slash(s)
}

/// The gene type a request names: `Gauge` and `Accum` by name, anything else the
/// gauge-and-accumulator gene.
pub open spec fn requested_gene_type(text: Seq<char>) -> GeneType {
    if text == "Gauge"@ {
        GeneType::Gauge
    } else if text == "Accum"@ {
        GeneType::Accum
    } else {
        GeneType::GaugeAndAccum
    }
}

/// The API reads a gene type by its exact name: only the text `Gauge` is a gauge, only
/// `Accum` an accumulator, and anything else (`GaugeAndAccum` among them) the
/// gauge-and-accumulator gene.  So every stored gene type name reads back as its own type,
/// except `Default`, which reads as `GaugeAndAccum`.
pub proof fn lemma_gene_type_names(text: Seq<char>, gt: GeneType)
    ensures
        requested_gene_type(text) == GeneType::Gauge <==> text == "Gauge"@,
        requested_gene_type(text) == GeneType::Accum <==> text == "Accum"@,
        requested_gene_type(text) == GeneType::GaugeAndAccum <==> (text != "Gauge"@ && text != "Accum"@),
        requested_gene_type(gene_type_code(gt)) == (if gt == GeneType::Default {
            GeneType::GaugeAndAccum
        } else {
            gt
        }),
{
    reveal_strlit("Accum");
    reveal_strlit("Gauge");
    reveal_strlit("GaugeAndAccum");
    reveal_strlit("Default");
    assert("Accum"@[0] != "Gauge"@[0]);
    assert("Accum"@ != "Gauge"@);
    assert("Gauge"@.len() != "GaugeAndAccum"@.len());
    assert("Accum"@[0] != "GaugeAndAccum"@[0]);
    assert("Accum"@ != "GaugeAndAccum"@);
    assert("Gauge"@.len() != "Default"@.len());
    assert("Accum"@.len() != "Default"@.len());
}

/// The gene type a request names.
pub fn extract_gene_type(gene_type_str: &str) -> (r: GeneType)
    ensures
        r == requested_gene_type(gene_type_str@),
{
    if str_eq(gene_type_str, "Gauge") {
        GeneType::Gauge
    } else if str_eq(gene_type_str, "Accum") {
        GeneType::Accum
    } else {
        GeneType::GaugeAndAccum
    }
}

/// The response an actor reply about state becomes.
#[derive(Debug, Clone, Copy, PartialEq, Eq, Structural)]
pub enum StateResponse {
    /// 200 with the state report
    Report,
    /// 404: the report holds no values
    NotFound,
    /// 409: the observations were already journaled
    ConstraintViolation,
    /// 500
    ServerError,
}

/// The response to an actor reply about state: a report with values, a report without
/// values (not found), a constraint violation, or a server error for anything else.
pub fn classify_state_reply<T>(reply: &NvResult<Message<T>>) -> (r: StateResponse)
    ensures
        match *reply {
            Ok(Message::StateReport { values, .. }) => if values@.len() == 0 {
                r == StateResponse::NotFound
            } else {
                r == StateResponse::Report
            },
            Ok(Message::ConstraintViolation {}) => r == StateResponse::ConstraintViolation,
            _ => r == StateResponse::ServerError,
        },
{
    broadcast use vstd::std_specs::hash::group_hash_axioms;
    match reply {
        Ok(Message::StateReport { values, .. }) => if values.is_empty() {
            StateResponse::NotFound
        } else {
            StateResponse::Report
        },
        Ok(Message::ConstraintViolation {}) => StateResponse::ConstraintViolation,
        _ => StateResponse::ServerError,
    }
}

/// The response an actor reply about a gene mapping becomes.
#[derive(Debug, Clone, Copy, PartialEq, Eq, Structural)]
pub enum MappingResponse {
    /// 200 with the mapping
    Mapping,
    /// 404: the path is not mapped
    NotFound,
    /// 409
    ConstraintViolation,
    /// 500
    ServerError,
}

/// The response to a reply about a gene mapping.
pub fn classify_mapping_reply<T>(reply: &NvResult<Message<T>>) -> (r: MappingResponse)
    ensures
        match *reply {
            Ok(Message::GeneMapping { .. }) => r == MappingResponse::Mapping,
            Ok(Message::NotFound { .. }) => r == MappingResponse::NotFound,
            Ok(Message::ConstraintViolation {}) => r == MappingResponse::ConstraintViolation,
            _ => r == MappingResponse::ServerError,
        },
{
    match reply {
        Ok(Message::GeneMapping { .. }) => MappingResponse::Mapping,
        Ok(Message::NotFound { .. }) => MappingResponse::NotFound,
        Ok(Message::ConstraintViolation {}) => MappingResponse::ConstraintViolation,
        _ => MappingResponse::ServerError,
    }
}

} // verus!
