use navactor::api_server::{actor_path, classify_mapping_reply, classify_state_reply, extract_gene_type, trim_start_slashes, ui_mount, HttpServerConfig, MappingResponse, StateResponse};
use navactor::actor::State;
use navactor::gene::{GeneType, TimeScope};
use navactor::message::{Message, MtHint, NvError, NvResult};
use navactor::server::Api;
use time::OffsetDateTime;

#[test]
fn config_defaults() {
    let c = HttpServerConfig::new(None, None, None, String::from("actors"));
    assert_eq!(c.port, 8800);
    assert_eq!(c.interface, "127.0.0.1");
    assert_eq!(c.external_host, "http://localhost:8800");
    assert_eq!(c.namespace, "actors");
    assert_eq!(c.to_display_string(), "[actors on 127.0.0.1:8800 as http://localhost:8800]");
    assert_eq!(c.listen_address(), "127.0.0.1:8800");
    assert_eq!(c.api_target(), "http://localhost:8800/api");
}

#[test]
fn config_given_values() {
    let c = HttpServerConfig::new(Some(9), Some(String::from("0.0.0.0")), Some(String::from("https://h")), String::from("n"));
    assert_eq!(c.to_display_string(), "[n on 0.0.0.0:9 as https://h]");
    assert_eq!(c.listen_address(), "0.0.0.0:9");
}

#[test]
fn ui_paths() {
    assert_eq!(trim_start_slashes("//ui/x"), "ui/x");
    assert_eq!(trim_start_slashes(""), "");
    assert_eq!(ui_mount(&Some(String::from("/docs")), "actors"), "/docs/actors");
    assert_eq!(ui_mount(&None, "genes"), "//genes");
}

#[test]
fn request_paths_and_gene_types() {
    assert_eq!(actor_path("actors/", "one"), "/actors/one");
    assert_eq!(actor_path("/actors/", "one"), "/actors/one");
    assert_eq!(extract_gene_type("Gauge"), GeneType::Gauge);
    assert_eq!(extract_gene_type("Accum"), GeneType::Accum);
    assert_eq!(extract_gene_type("accum"), GeneType::GaugeAndAccum);
}

#[test]
fn replies_become_responses() {
    let mut values: State<i64> = State::new();
    let empty: NvResult<Message<i64>> = Ok(Message::StateReport { datetime: OffsetDateTime::now_utc(), path: String::from("/p"), values: values.clone() });
    assert_eq!(classify_state_reply(&empty), StateResponse::NotFound);
    values.insert(1, 1);
    let full: NvResult<Message<i64>> = Ok(Message::StateReport { datetime: OffsetDateTime::now_utc(), path: String::from("/p"), values });
    assert_eq!(classify_state_reply(&full), StateResponse::Report);
    let cv: NvResult<Message<i64>> = Ok(Message::ConstraintViolation {});
    assert_eq!(classify_state_reply(&cv), StateResponse::ConstraintViolation);
    assert_eq!(classify_mapping_reply(&cv), MappingResponse::ConstraintViolation);
    let err: NvResult<Message<i64>> = Err(NvError { reason: String::from("x") });
    assert_eq!(classify_state_reply(&err), StateResponse::ServerError);
    assert_eq!(classify_mapping_reply(&err), MappingResponse::ServerError);
    let nf: NvResult<Message<i64>> = Ok(Message::NotFound { path: String::from("/p") });
    assert_eq!(classify_mapping_reply(&nf), MappingResponse::NotFound);
    let gm: NvResult<Message<i64>> = Ok(Message::GeneMapping { path: String::from("/p"), gene_type: GeneType::Gauge });
    assert_eq!(classify_mapping_reply(&gm), MappingResponse::Mapping);
}

#[test]
fn greetings() {
    assert_eq!(Api.index(Some(String::from("nv"))), "hello, nv!");
    assert_eq!(Api.index(None), "hello!");
}

#[test]
fn labels() {
    assert_eq!(MtHint::GeneMappingQuery.to_display_string(), "[gene mapping query]");
    assert_eq!(MtHint::Update.to_display_string(), "[update]");
    assert_eq!(TimeScope::QuarterHour.to_display_string(), "[Minute Time Scope]");
    assert_eq!(TimeScope::HalfDay.to_display_string(), "[Half Day Time Scope]");
    let c: Message<i64> = Message::Content { text: String::from("t"), hint: MtHint::Query, path: Some(String::from("/p")) };
    assert_eq!(c.to_display_string(), "[Content /p [query]:t]");
    let c: Message<i64> = Message::Content { text: String::from("t"), hint: MtHint::Query, path: None };
    assert_eq!(c.to_display_string(), "[Content [query]:t]");
    let l: Message<i64> = Message::LoadCmd { path: String::from("/z"), hint: MtHint::Update };
    assert_eq!(l.to_display_string(), "[LoadCmd /z]");
}
