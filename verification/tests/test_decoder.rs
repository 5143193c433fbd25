use navactor::actor::State;
use navactor::json_decoder::{decode_route, json_error, mapping_message, observations_message, query_message, DecodeAction, Observations};
use navactor::message::{GeneMapping, Message, MtHint, PathQuery};
use navactor::nvtime::extract_datetime;
use navactor::stdin_actor::line_hint;
use navactor::gene::GeneType;

#[test]
fn content_is_routed_by_hint() {
    let c: Message<i64> = Message::Content { text: String::from("{}"), hint: MtHint::Update, path: None };
    assert!(matches!(decode_route(c), DecodeAction::ParseUpdate { .. }));
    let c: Message<i64> = Message::Content { text: String::from("{}"), hint: MtHint::Query, path: None };
    assert!(matches!(decode_route(c), DecodeAction::ParseQuery { .. }));
    let c: Message<i64> = Message::Content { text: String::from("{}"), hint: MtHint::GeneMapping, path: None };
    assert!(matches!(decode_route(c), DecodeAction::ParseMapping { .. }));
    let c: Message<i64> = Message::Content { text: String::from("junk"), hint: MtHint::GeneMappingQuery, path: Some(String::from("/p")) };
    match decode_route(c) {
        DecodeAction::Forward(Message::Content { text, path, hint }) => {
            assert_eq!(text, "");
            assert_eq!(path, Some(String::from("/p")));
            assert_eq!(hint, MtHint::GeneMappingQuery);
        }
        _ => panic!("expected a forward"),
    }
    assert!(matches!(decode_route::<i64>(Message::EndOfStream {}), DecodeAction::Forward(Message::EndOfStream {})));
}

#[test]
fn decoded_records_become_messages() {
    let q: Message<i64> = query_message(PathQuery { path: String::from("/actors/one") });
    assert!(matches!(q, Message::Query { hint: MtHint::State, .. }));
    let m: Message<i64> = mapping_message(GeneMapping { path: String::from("/g"), gene_type: String::from("Accum") }).ok().unwrap();
    assert!(matches!(m, Message::GeneMapping { gene_type: GeneType::Accum, .. }));
    let e = mapping_message::<i64>(GeneMapping { path: String::from("/g"), gene_type: String::from("bogus") }).err().unwrap();
    assert_eq!(e.reason, "json parse error: unknown gene type: bogus");
    assert_eq!(json_error("eof").reason, "json parse error: eof");
}

#[test]
fn observations_need_a_readable_datetime() {
    let mut values: State<i64> = State::new();
    values.insert(1, 1);
    let o = Observations { datetime: String::from("2023-01-11T23:17:57+0000"), values, path: String::from("/actors") };
    match observations_message(o) {
        Some(Message::Observations { datetime, path, values }) => {
            assert_eq!(datetime, extract_datetime("2023-01-11T23:17:57+0000").ok().unwrap());
            assert_eq!(path, "/actors");
            assert_eq!(values.get(&1), Some(&1));
        }
        _ => panic!("expected observations"),
    }
    let o: Observations<i64> = Observations { datetime: String::from("yesterday"), values: State::new(), path: String::from("/actors") };
    assert!(observations_message(o).is_none());
}

#[test]
fn input_lines_with_a_gene_type_are_mappings() {
    assert_eq!(line_hint("{\"path\": \"/a\", \"gene_type\": \"accum\"}"), MtHint::GeneMapping);
    assert_eq!(line_hint("{\"path\": \"/a\", \"values\": {\"1\": 1}}"), MtHint::Update);
}

#[test]
fn datetimes_are_read_as_iso8601() {
    let a = extract_datetime("2023-01-11T23:17:57+0000").ok().unwrap();
    let b = extract_datetime("2022-01-11T23:17:57+0000").ok().unwrap();
    assert_eq!(a.unix_timestamp() - b.unix_timestamp(), 365 * 86400);
    let e = extract_datetime("not a date").err().unwrap();
    assert!(!e.to_display_string().is_empty());
}
