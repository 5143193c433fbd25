use navactor::actor::State;
use navactor::gauge_and_accum_gene::GaugeAndAccumGene;
use navactor::gauge_gene::GaugeGene;
use navactor::gene::Gene;
use navactor::message::Message;
use time::OffsetDateTime;

fn ulps_close(a: f64, b: f64) -> bool {
    if a.is_sign_negative() != b.is_sign_negative() {
        return a == b;
    }
    let x = a.to_bits() as i64;
    let y = b.to_bits() as i64;
    (x - y).abs() <= 4
}

#[test]
fn test_gauge_accum_gene() {
    let mut state: State<f64> = State::new();
    state.insert(0, 1.9);
    state.insert(1, 2.7);
    state.insert(100, 2.91);
    state.insert(199, 3.2);

    let mut values: State<f64> = State::new();
    values.insert(0, 2.9);
    values.insert(199, 4.11);

    let g1 = GaugeAndAccumGene {
        ..Default::default()
    };

    let msg = Message::Observations {
        path: String::from("/"),
        datetime: OffsetDateTime::now_utc(),
        values,
    };

    let r = g1.apply_operators(state, msg);
    assert!(r.is_ok());
    let new_state = r.unwrap();
    // test guage
    assert!(ulps_close(*new_state.get(&0).unwrap(), 2.9));
    assert!(ulps_close(*new_state.get(&1).unwrap(), 2.7));
    // test accumulator
    let tv1: f64 = 2.91;
    assert!(ulps_close(*new_state.get(&100).unwrap(), tv1));
    assert!(ulps_close(*new_state.get(&199).unwrap(), 7.31));
}

#[test]
fn gauge_accum_gene_rejects_an_index_outside_its_ranges() {
    let g1 = GaugeAndAccumGene { ..Default::default() };
    let mut values: State<i64> = State::new();
    values.insert(200, 1);
    let msg = Message::Observations { path: String::from("/x"), datetime: OffsetDateTime::now_utc(), values };
    let r = g1.apply_operators(State::new(), msg);
    assert_eq!(r.err().unwrap().reason, "unsupported idx: 200");
}

#[test]
fn gauge_accum_gene_rejects_a_negative_index() {
    let g1 = GaugeAndAccumGene { ..Default::default() };
    let mut values: State<i64> = State::new();
    values.insert(-3, 1);
    let msg = Message::Observations { path: String::from("/x"), datetime: OffsetDateTime::now_utc(), values };
    let r = g1.apply_operators(State::new(), msg);
    assert_eq!(r.err().unwrap().reason, "unsupported idx: -3");
}

#[test]
fn gauge_accum_gene_rejects_queries() {
    let g1 = GaugeAndAccumGene { ..Default::default() };
    let msg: Message<i64> = Message::Query { path: String::from("/x"), hint: navactor::message::MtHint::State };
    let r = g1.apply_operators(State::new(), msg);
    assert_eq!(r.err().unwrap().reason, "unsupported message type");
}

#[test]
fn gauge_gene_replaces_every_index() {
    let g = GaugeGene { ..Default::default() };
    let mut state: State<i64> = State::new();
    state.insert(1, 10);
    state.insert(2, 20);
    let mut values: State<i64> = State::new();
    values.insert(1, 5);
    values.insert(999, 7);
    let msg = Message::Observations { path: String::from("/g"), datetime: OffsetDateTime::now_utc(), values };
    let r = g.apply_operators(state, msg).ok().unwrap();
    assert_eq!(r.get(&1), Some(&5));
    assert_eq!(r.get(&2), Some(&20));
    assert_eq!(r.get(&999), Some(&7));
}

#[test]
fn custom_ranges_prefer_the_gauge_range() {
    let g = GaugeAndAccumGene {
        guage_first_idx: 0,
        guage_slots: 10,
        accumulator_first_idx: 5,
        accumulator_slots: 10,
        ..Default::default()
    };
    let mut state: State<i64> = State::new();
    state.insert(7, 100);
    state.insert(12, 100);
    let mut values: State<i64> = State::new();
    values.insert(7, 1);
    values.insert(12, 1);
    let msg = Message::Observations { path: String::from("/r"), datetime: OffsetDateTime::now_utc(), values };
    let r = g.apply_operators(state, msg).ok().unwrap();
    assert_eq!(r.get(&7), Some(&1));
    assert_eq!(r.get(&12), Some(&101));
}
