use navactor::actor::State;
use navactor::gene::TimeScope;
use navactor::genes::Gene;
use navactor::genes::GuageAndAccumGene;
use navactor::message::Message;
use time::OffsetDateTime;

fn ulps_close(a: f64, b: f64) -> bool {
    if a.is_sign_negative() != b.is_sign_negative() {
        return a == b;
    }
    let x = a.to_bits() as i64;
    let y = b.to_bits() as i64;
    (x - y).abs() <= 4
}

#[test]
fn test_default_gene() {
    let mut state: State<f64> = State::new();
    state.insert(0, 1.9);
    state.insert(1, 2.7);
    state.insert(100, 2.91);
    state.insert(199, 3.2);

    let mut values: State<f64> = State::new();
    values.insert(0, 2.9);
    values.insert(199, 4.11);

    let g1 = GuageAndAccumGene::default();

    let msg = Message::Observations {
        path: String::from("/"),
        datetime: OffsetDateTime::now_utc(),
        values,
    };

    let r = g1.apply_operators(state, msg);
    assert!(r.is_ok());
    let new_state = r.unwrap();
    // test guage
    assert_eq!(new_state.get(&0).unwrap(), &2.9);
    assert_eq!(new_state.get(&1).unwrap(), &2.7);
    // test accumulator
    assert_eq!(new_state.get(&100).unwrap(), &2.91);
    assert!(ulps_close(*new_state.get(&199).unwrap(), 7.31));
}

#[test]
fn default_gene_starts_a_new_accumulator_index_at_its_value() {
    let g1 = GuageAndAccumGene::default();
    let mut values: State<i64> = State::new();
    values.insert(150, 4);
    let msg = Message::Observations { path: String::from("/"), datetime: OffsetDateTime::now_utc(), values };
    let r = g1.apply_operators(State::new(), msg).ok().unwrap();
    assert_eq!(r.get(&150), Some(&4));
}

#[test]
fn default_gene_rejects_an_index_outside_its_ranges() {
    let g1 = GuageAndAccumGene::default();
    let mut values: State<i64> = State::new();
    values.insert(250, 4);
    let msg = Message::Observations { path: String::from("/"), datetime: OffsetDateTime::now_utc(), values };
    let r = g1.apply_operators(State::new(), msg);
    assert_eq!(r.err().unwrap().to_display_string(), "unsuccessful operation: unsupported idx: 250");
}

#[test]
fn default_gene_passes_other_messages_through() {
    let g1 = GuageAndAccumGene::default();
    let mut state: State<i64> = State::new();
    state.insert(3, 33);
    let msg: Message<i64> = Message::InitCmd {};
    let r = g1.apply_operators(state, msg).ok().unwrap();
    assert_eq!(r.len(), 1);
    assert_eq!(r.get(&3), Some(&33));
    assert!(matches!(Gene::<i64>::get_time_scope(&g1), TimeScope::Forever));
}
