use navactor::actor::State;
use navactor::genes::AccumOperator;
use navactor::genes::GuageOperator;
use navactor::genes::Operator as ErrorTypedOperator;
use navactor::operator::Accumulator;
use navactor::operator::Gauge;
use navactor::operator::Operator;
use time::OffsetDateTime;

fn ulps_close(a: f64, b: f64) -> bool {
    if a.is_sign_negative() != b.is_sign_negative() {
        return a == b;
    }
    let x = a.to_bits() as i64;
    let y = b.to_bits() as i64;
    (x - y).abs() <= 4
}

#[test]
fn test_guage() {
    let mut state: State<f64> = State::new();
    state.insert(0, 1.9);

    let r = Gauge::apply(&state, 0, 5.0, OffsetDateTime::now_utc());
    assert_eq!(r.ok(), Some(5.0));
}

#[test]
fn test_accumulator() {
    let mut state: State<f64> = State::new();
    state.insert(0, 1.9);

    let r = Accumulator::apply(&state, 0, 5.0, OffsetDateTime::now_utc());
    assert_eq!(r.ok(), Some(6.9));
}

#[test]
fn test_accumulator_with_dec() {
    let mut state: State<f64> = State::new();
    state.insert(0, 3.2);

    let r = Accumulator::apply(&state, 0, 4.11, OffsetDateTime::now_utc());
    assert!(ulps_close(r.ok().unwrap(), 7.31));
}

#[test]
fn accumulator_starts_a_new_index_at_the_observation() {
    let state: State<i64> = State::new();
    let r = Accumulator::apply(&state, 7, 42, OffsetDateTime::now_utc());
    assert_eq!(r.ok(), Some(42));
}

#[test]
fn accumulator_sums_integers_exactly() {
    let mut state: State<i64> = State::new();
    state.insert(3, -10);
    let r = Accumulator::apply(&state, 3, 25, OffsetDateTime::now_utc());
    assert_eq!(r.ok(), Some(15));
}

#[test]
fn accum_operator_starts_a_new_index_at_the_observation() {
    let state: State<i64> = State::new();
    let r = AccumOperator::apply(&state, 1, 5, OffsetDateTime::now_utc());
    assert_eq!(r.ok(), Some(5));
}

#[test]
fn gene_module_operators_replace_and_sum() {
    let mut state: State<i64> = State::new();
    state.insert(1, 10);
    let g = GuageOperator::apply(&state, 1, 3, OffsetDateTime::now_utc());
    assert_eq!(g.ok(), Some(3));
    let a = AccumOperator::apply(&state, 1, 3, OffsetDateTime::now_utc());
    assert_eq!(a.ok(), Some(13));
}

#[test]
fn op_error_displays_its_reason() {
    let e = navactor::operator::OpError { reason: String::from("bad index") };
    assert_eq!(e.to_display_string(), "unsuccessful operation: bad index");
}
