use navactor::accum_gene::AccumGene;
use navactor::actor::State;
use navactor::gene::{Gene, TimeScope};
use navactor::message::Message;
use time::OffsetDateTime;

fn ulps_close(a: f64, b: f64) -> bool {
    if a.is_sign_negative() != b.is_sign_negative() {
        return a == b;
    }
    let x = a.to_bits() as i64;
    let y = b.to_bits() as i64;
    (x - y).abs() <= 4
}

#[test]
fn test_accum_gene() {
    let mut state: State<f64> = State::new();
    state.insert(0, 1.9);
    state.insert(1, 2.7);
    state.insert(100, 2.91);
    state.insert(199, 3.2);

    let mut values: State<f64> = State::new();
    values.insert(0, 2.9);
    values.insert(199, 4.11);

    let g1 = AccumGene {
        ..Default::default()
    };

    let msg = Message::Observations {
        path: String::from("/"),
        datetime: OffsetDateTime::now_utc(),
        values,
    };

    let r = g1.apply_operators(state, msg);
    assert!(r.is_ok());
    let new_state = r.unwrap();

    // accum is sum: 1.9 + 2.9 == 4.8
    assert!(ulps_close(*new_state.get(&0).unwrap(), 4.8));
    // 2.7 is untouched because there is no '1' idx entry in values
    assert!(ulps_close(*new_state.get(&1).unwrap(), 2.7));
    let tv1: f64 = 2.91;
    assert!(ulps_close(*new_state.get(&100).unwrap(), tv1));
    // accum is sum: 3.2 + 4.11 == 7.31
    assert!(ulps_close(*new_state.get(&199).unwrap(), 7.31));
}

#[test]
fn accum_gene_adds_new_indexes_and_keeps_scope() {
    let g1 = AccumGene { ..Default::default() };
    assert!(matches!(Gene::<i64>::get_time_scope(&g1), TimeScope::Forever));
    let mut values: State<i64> = State::new();
    values.insert(5000, 9);
    let msg = Message::Observations { path: String::from("/a"), datetime: OffsetDateTime::now_utc(), values };
    let r = g1.apply_operators(State::new(), msg).ok().unwrap();
    assert_eq!(r.len(), 1);
    assert_eq!(r.get(&5000), Some(&9));
}

#[test]
fn accum_gene_rejects_other_messages() {
    let g1 = AccumGene { ..Default::default() };
    let msg: Message<i64> = Message::EndOfStream {};
    let r = g1.apply_operators(State::new(), msg);
    assert_eq!(r.err().unwrap().reason, "unsupported message type");
}
