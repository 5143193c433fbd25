use navactor::actor::{get_gene, State, StateActor, StateReply};
use navactor::gene::GeneType;
use navactor::message::{Message, MtHint};
use time::OffsetDateTime;

fn obs(path: &str, pairs: &[(i32, i64)]) -> Message<i64> {
    let mut values = State::new();
    for (k, v) in pairs {
        values.insert(*k, *v);
    }
    Message::Observations { path: String::from(path), datetime: OffsetDateTime::now_utc(), values }
}

#[test]
fn observations_are_answered_with_the_new_state() {
    let mut actor: StateActor<i64> = StateActor::new(String::from("/a/1"), get_gene(GeneType::GaugeAndAccum));
    let now = OffsetDateTime::now_utc();
    match actor.handle(obs("/a/1", &[(1, 5), (150, 2)]), now) {
        StateReply::Respond(Ok(Message::StateReport { datetime, path, values })) => {
            assert_eq!(datetime, now);
            assert_eq!(path, "/a/1");
            assert_eq!(values.get(&1), Some(&5));
            assert_eq!(values.get(&150), Some(&2));
        }
        _ => panic!("expected a state report"),
    }
    match actor.handle(obs("/a/1", &[(150, 3)]), now) {
        StateReply::Respond(Ok(Message::StateReport { values, .. })) => assert_eq!(values.get(&150), Some(&5)),
        _ => panic!("expected a state report"),
    }
}

#[test]
fn rejected_observations_leave_the_state() {
    let mut actor: StateActor<i64> = StateActor::new(String::from("/a/2"), get_gene(GeneType::GaugeAndAccum));
    let now = OffsetDateTime::now_utc();
    assert!(actor.update_state(obs("/a/2", &[(3, 3)])));
    match actor.handle(obs("/a/2", &[(3, 4), (500, 1)]), now) {
        StateReply::Respond(Err(e)) => assert_eq!(e.reason, "cannot apply operators"),
        _ => panic!("expected an error"),
    }
    assert_eq!(actor.state.len(), 1);
    assert_eq!(actor.state.get(&3), Some(&3));
}

#[test]
fn queries_init_and_others() {
    let mut actor: StateActor<i64> = StateActor::new(String::from("/q"), get_gene(GeneType::Gauge));
    let now = OffsetDateTime::now_utc();
    let q = Message::Query { path: String::from("/q"), hint: MtHint::State };
    match actor.handle(q, now) {
        StateReply::Respond(Ok(Message::StateReport { values, .. })) => assert!(values.is_empty()),
        _ => panic!("expected a report"),
    }
    assert!(matches!(actor.handle(Message::InitCmd {}, now), StateReply::Replay));
    assert!(matches!(actor.handle(Message::ReadAllCmd {}, now), StateReply::Ignore));
}

#[test]
fn report_carries_path_and_state() {
    let mut actor: StateActor<i64> = StateActor::new(String::from("/r"), get_gene(GeneType::Accum));
    assert!(actor.update_state(obs("/r", &[(9, 1)])));
    assert!(actor.update_state(obs("/r", &[(9, 1)])));
    let now = OffsetDateTime::now_utc();
    match actor.get_state_rpt(now) {
        Message::StateReport { path, values, datetime } => {
            assert_eq!(path, "/r");
            assert_eq!(values.get(&9), Some(&2));
            assert_eq!(datetime, now);
        }
        _ => panic!("expected a report"),
    }
}

#[test]
fn a_second_update_replaces_only_its_indexes() {
    let mut actor: StateActor<f64> = StateActor::new(String::from("/"), get_gene(GeneType::Gauge));
    let mut first: State<f64> = State::new();
    first.insert(1, 1.9);
    first.insert(2, 2.9);
    let now = OffsetDateTime::now_utc();
    let m = Message::Observations { path: String::from("/"), datetime: now, values: first };
    assert!(matches!(actor.handle(m, now), StateReply::Respond(Ok(Message::StateReport { .. }))));
    let mut second: State<f64> = State::new();
    second.insert(1, 1.8);
    let m = Message::Observations { path: String::from("/"), datetime: now, values: second };
    match actor.handle(m, now) {
        StateReply::Respond(Ok(Message::StateReport { values, .. })) => {
            assert_eq!(values.get(&1), Some(&1.8));
            assert_eq!(values.get(&2), Some(&2.9));
        }
        _ => panic!("expected a state report"),
    }
}
