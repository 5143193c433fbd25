use navactor::actor::{get_gene, State, StateActor};
use navactor::director::{Director, DirectorAction};
use navactor::gene::GeneType;
use navactor::message::{Message, MtHint};
use navactor::nvtime::{extract_datetime, OffsetDateTimeWrapper};
use navactor::store_actor_sqlite::{
    insert_reply, journal_entry, mapping_entry, parse_gene_type_code, store_route, InsertOutcome,
    StoreAction, StoreError,
};
use time::format_description::well_known::Iso8601;
use time::OffsetDateTime;

fn values(pairs: &[(i32, i64)]) -> State<i64> {
    let mut s = State::new();
    for (k, v) in pairs {
        s.insert(*k, *v);
    }
    s
}

#[test]
fn test_read_jrnl() {
    let now = OffsetDateTime::now_utc();
    let journal = vec![
        journal_entry(String::from("/actors/one"), 1673479077, values(&[(1, 1), (2, 2), (3, 3)]), now),
        journal_entry(String::from("/actors/one"), 1673479078, values(&[(1, 100)]), now),
        journal_entry(String::from("/actors/one"), 1673479079, values(&[(2, 5), (3, 4)]), now),
    ];
    let mut actor: StateActor<i64> = StateActor::new(String::from("/actors/one"), get_gene(GeneType::Gauge));
    let mut live: StateActor<i64> = StateActor::new(String::from("/actors/one"), get_gene(GeneType::Gauge));
    for entry in journal.iter() {
        if let Message::Observations { datetime, .. } = entry {
            assert_ne!(*datetime, now);
        }
        assert!(live.update_state(entry.clone()));
    }
    let mut stream = journal.clone();
    stream.push(Message::EndOfStream {});
    for entry in stream {
        if !actor.replay_step(entry) {
            break;
        }
    }
    assert_eq!(actor.state, live.state);
    assert_eq!(actor.state.get(&1), Some(&100));
    assert_eq!(actor.state.get(&2), Some(&5));
    assert_eq!(actor.state.get(&3), Some(&4));
}

#[test]
fn replay_of_an_accumulator_journal_sums() {
    let now = OffsetDateTime::now_utc();
    let mut actor: StateActor<i64> = StateActor::new(String::from("/acc"), get_gene(GeneType::Accum));
    let entries = vec![
        journal_entry(String::from("/acc"), 10, values(&[(1, 1)]), now),
        journal_entry(String::from("/acc"), 11, values(&[(1, 2)]), now),
        Message::EndOfStream {},
        journal_entry(String::from("/acc"), 12, values(&[(1, 4)]), now),
    ];
    for entry in entries {
        if !actor.replay_step(entry) {
            break;
        }
    }
    assert_eq!(actor.state.get(&1), Some(&3));
}

#[test]
fn journal_entry_restores_the_persisted_timestamp() {
    let now = OffsetDateTime::now_utc();
    let m: Message<i64> = journal_entry(String::from("/p"), 1673479077, State::new(), now);
    match m {
        Message::Observations { datetime, path, .. } => {
            assert_eq!(datetime.unix_timestamp(), 1673479077);
            assert_eq!(path, "/p");
        }
        _ => panic!("not observations"),
    }
}

#[test]
fn journal_entry_out_of_range_falls_back_to_now() {
    let now = OffsetDateTime::now_utc();
    let m: Message<i64> = journal_entry(String::from("/p"), i64::MAX, State::new(), now);
    match m {
        Message::Observations { datetime, .. } => assert_eq!(datetime, now),
        _ => panic!("not observations"),
    }
}

#[test]
fn timestamp_persist_and_restore_roundtrip() {
    let dt = extract_datetime("2023-01-11T23:17:57+0000").ok().unwrap();
    let w = OffsetDateTimeWrapper::new(dt);
    assert_eq!(w.datetime_num, 1673479077);
    let back = w.to_ts().ok().unwrap();
    assert_eq!(back.unix_timestamp(), dt.unix_timestamp());
    let bad = OffsetDateTimeWrapper { datetime_num: i64::MIN };
    assert!(bad.to_ts().is_err());
}

#[test]
fn store_routes_observations_with_duplicate_detection() {
    let dt = extract_datetime("2023-01-11T23:17:57+0000").ok().unwrap();
    let seq = OffsetDateTime::now_utc();
    let m: Message<i64> = Message::Observations { path: String::from("/a"), datetime: dt, values: values(&[(1, 1)]) };
    match store_route(m.clone(), seq, false) {
        StoreAction::InsertUpdate { path, timestamp, sequence, values } => {
            assert_eq!(path, "/a");
            assert_eq!(timestamp, dt);
            assert_eq!(sequence, seq);
            assert_eq!(values.get(&1), Some(&1));
        }
        _ => panic!("not an insert"),
    }
    match store_route(m, seq, true) {
        StoreAction::InsertUpdate { timestamp, .. } => assert_eq!(timestamp, seq),
        _ => panic!("not an insert"),
    }
}

#[test]
fn store_routes_mappings_and_loads() {
    let now = OffsetDateTime::now_utc();
    let m: Message<i64> = Message::Content { path: Some(String::from("/g")), text: String::from("Accum"), hint: MtHint::GeneMapping };
    match store_route(m, now, false) {
        StoreAction::InsertMapping { path, text } => {
            assert_eq!(path, "/g");
            assert_eq!(text, "Accum");
        }
        _ => panic!("not a mapping"),
    }
    let m: Message<i64> = Message::GeneMapping { path: String::from("/g"), gene_type: GeneType::Accum };
    match store_route(m, now, false) {
        StoreAction::Unexpected { label } => assert_eq!(label, "[GeneMapping]"),
        _ => panic!("a bare mapping is not stored"),
    }
    let m: Message<i64> = Message::LoadCmd { path: String::from("/g"), hint: MtHint::GeneMapping };
    assert!(matches!(store_route(m, now, false), StoreAction::LoadMappings { .. }));
    let m: Message<i64> = Message::LoadCmd { path: String::from("/g"), hint: MtHint::Update };
    assert!(matches!(store_route(m, now, false), StoreAction::LoadJournal { .. }));
    let m: Message<i64> = Message::ReadAllCmd {};
    match store_route(m, now, false) {
        StoreAction::Unexpected { label } => assert_eq!(label, "[ReadAllCmd]"),
        _ => panic!("expected unexpected"),
    }
}

#[test]
fn insert_outcomes_become_replies() {
    let r: Result<Message<i64>, _> = insert_reply(InsertOutcome::Inserted);
    assert!(matches!(r, Ok(Message::EndOfStream {})));
    let r: Result<Message<i64>, _> = insert_reply(InsertOutcome::Failed(String::from("disk full")));
    assert_eq!(r.err().unwrap().reason, "disk full");
}

#[test]
fn gene_codes_roundtrip() {
    for gt in [GeneType::Accum, GeneType::Gauge, GeneType::GaugeAndAccum, GeneType::Default] {
        assert_eq!(parse_gene_type_code(gt.to_code().as_str()), Some(gt));
    }
    assert_eq!(parse_gene_type_code("accum"), None);
    let m: Message<i64> = mapping_entry(String::from("/x"), String::from("other"));
    match m {
        Message::Content { text, hint, path } => {
            assert_eq!(text, "other");
            assert_eq!(hint, MtHint::GeneMapping);
            assert_eq!(path, Some(String::from("/x")));
        }
        _ => panic!("expected content"),
    }
}

#[test]
fn each_namespace_has_its_own_database_file() {
    assert_eq!(navactor::store_actor_sqlite::db_url("actors"), "actors.db");
}

#[test]
fn store_error_displays_bad_state() {
    let e = StoreError { reason: String::from("oops") };
    assert_eq!(e.to_display_string(), "bad actor state: oops");
}

#[test]
fn journaled_observations_read_back_unchanged() {
    let dt = extract_datetime("2023-01-11T23:17:57+0000").ok().unwrap();
    let m: Message<i64> = Message::Observations { path: String::from("/actors/two"), datetime: dt, values: values(&[(1, 1), (2, 2)]) };
    let (path, stored_ts, stored_values) = match store_route(m, OffsetDateTime::now_utc(), false) {
        StoreAction::InsertUpdate { path, timestamp, values, .. } => (path, OffsetDateTimeWrapper::new(timestamp).datetime_num, values),
        _ => panic!("not an insert"),
    };
    match journal_entry(path, stored_ts, stored_values, OffsetDateTime::now_utc()) {
        Message::Observations { path, datetime, values } => {
            assert_eq!(path, "/actors/two");
            assert_eq!(datetime, dt);
            assert_eq!(values.len(), 2);
            assert_eq!(values.get(&2), Some(&2));
        }
        _ => panic!("not observations"),
    }
}

#[test]
fn journaled_mappings_read_back_unchanged() {
    for gt in [GeneType::Accum, GeneType::Gauge, GeneType::GaugeAndAccum, GeneType::Default] {
        let mut d = Director::new(String::from("actors"));
        let m: Message<i64> = Message::GeneMapping { path: String::from("/actors/x"), gene_type: gt };
        let entry = match d.route(m) {
            DirectorAction::RecordMapping { entry, .. } => entry,
            _ => panic!("not recorded"),
        };
        let back: Message<i64> = match store_route(entry, OffsetDateTime::now_utc(), false) {
            StoreAction::InsertMapping { path, text } => mapping_entry(path, text),
            _ => panic!("not a mapping insert"),
        };
        let mut fresh = Director::new(String::from("actors"));
        assert_eq!(fresh.replay_mappings(vec![back, Message::EndOfStream {}]), 1);
        assert_eq!(fresh.gene_type_for_path("/actors/x"), gt);
    }
}

#[test]
fn a_journal_replays_until_the_first_rejected_entry() {
    let now = OffsetDateTime::now_utc();
    let mut actor: StateActor<i64> = StateActor::new(String::from("/g"), get_gene(GeneType::GaugeAndAccum));
    let journal = vec![
        journal_entry(String::from("/g"), 10, values(&[(1, 1), (150, 5)]), now),
        journal_entry(String::from("/g"), 11, values(&[(150, 5)]), now),
        journal_entry(String::from("/g"), 12, values(&[(500, 1)]), now),
        journal_entry(String::from("/g"), 13, values(&[(1, 9)]), now),
        Message::EndOfStream {},
    ];
    assert_eq!(actor.replay(journal), 2);
    assert_eq!(actor.state.get(&1), Some(&1));
    assert_eq!(actor.state.get(&150), Some(&10));
}

#[test]
fn errors_carry_the_time_crate_texts() {
    let expected = OffsetDateTime::parse("not a date", &Iso8601::DEFAULT).err().unwrap().to_string();
    assert_eq!(extract_datetime("not a date").err().unwrap().reason, expected);
    let expected = OffsetDateTime::from_unix_timestamp(i64::MIN).err().unwrap().to_string();
    let bad = OffsetDateTimeWrapper { datetime_num: i64::MIN };
    assert_eq!(bad.to_ts().err().unwrap().reason, expected);
    let edge = OffsetDateTimeWrapper { datetime_num: 253402300799 };
    let back = edge.to_ts().ok().unwrap();
    assert_eq!(back.unix_timestamp(), 253402300799);
    assert_eq!(back.offset(), time::UtcOffset::UTC);
    assert_eq!(back.nanosecond(), 0);
    let past = OffsetDateTimeWrapper { datetime_num: 253402300800 };
    assert!(past.to_ts().is_err());
}
