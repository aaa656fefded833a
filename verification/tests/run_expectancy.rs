use pitch_engine::run_expectancy::{
    clamp_base, lookup, value_pitch, CountState, Valuation, BASES_LOADED, MILLIS_PER_RUN, RE288,
};

fn cell(balls: u8, strikes: u8, base_value: u8, outs: u8, run_expectancy: i32) -> RE288 {
    RE288 { outs, balls, strikes, base_value, run_expectancy }
}

fn state(balls: u8, strikes: u8, base_value: u8, outs: u8) -> CountState {
    CountState { balls, strikes, base_value, outs }
}

fn table() -> Vec<RE288> {
    vec![
        cell(3, 0, 7, 0, 2912),
        cell(0, 0, 0, 0, 481),
        cell(0, 0, 0, 2, 103),
        cell(0, 2, 0, 2, 60),
        cell(1, 1, 3, 1, 925),
        cell(0, 0, 0, 1, 254),
    ]
}

#[test]
fn cell_knows_its_key() {
    let c = cell(1, 2, 3, 0, 10);
    assert!(c.has_key(1, 2, 3, 0));
    assert!(!c.has_key(2, 1, 3, 0));
    assert!(!c.has_key(1, 2, 0, 3));
    assert!(!c.has_key(1, 2, 3, 1));
}

#[test]
fn lookup_finds_the_cell() {
    assert_eq!(lookup(&table(), 3, 0, 7, 0), 2912);
    assert_eq!(lookup(&table(), 0, 2, 0, 2), 60);
    assert_eq!(lookup(&table(), 0, 0, 0, 1), 254);
}

#[test]
fn lookup_of_an_absent_key_is_zero() {
    assert_eq!(lookup(&table(), 4, 0, 0, 0), 0);
    assert_eq!(lookup(&table(), 0, 0, 8, 0), 0);
    assert_eq!(lookup(&Vec::new(), 0, 0, 0, 0), 0);
}

#[test]
fn lookup_takes_the_last_cell_of_a_key() {
    let mut t = table();
    t.push(cell(0, 0, 0, 0, -5));
    assert_eq!(lookup(&t, 0, 0, 0, 0), -5);
}

#[test]
fn clamp_base_caps_at_bases_loaded() {
    assert_eq!(BASES_LOADED, 7);
    assert_eq!(clamp_base(0), 0);
    assert_eq!(clamp_base(7), 7);
    assert_eq!(clamp_base(8), 7);
    assert_eq!(clamp_base(255), 7);
}

#[test]
fn value_is_end_less_start_plus_runs() {
    assert_eq!(MILLIS_PER_RUN, 1000);
    let worth = value_pitch(&table(), state(0, 0, 0, 0), state(1, 1, 3, 1), 2);
    assert_eq!(worth, Valuation { start: 481, end: 925, value: 2444 });
    let worth = value_pitch(&table(), state(1, 1, 3, 1), state(0, 0, 0, 2), 0);
    assert_eq!(worth, Valuation { start: 925, end: 103, value: -822 });
}

#[test]
fn value_ends_at_zero_with_three_outs() {
    let mut t = table();
    t.push(cell(0, 0, 0, 3, 999));
    let worth = value_pitch(&t, state(0, 0, 0, 2), state(0, 0, 0, 3), 1);
    assert_eq!(worth, Valuation { start: 103, end: 0, value: 897 });
}

#[test]
fn value_wraps_the_end_state() {
    // Four balls, three strikes and four outs are looked up as none, none and one.
    let worth = value_pitch(&table(), state(0, 0, 0, 0), state(4, 3, 0, 4), 0);
    assert_eq!(worth, Valuation { start: 481, end: 254, value: -227 });
    // Five balls and five strikes are looked up as one and two.
    let worth = value_pitch(&table(), state(0, 0, 0, 0), state(4, 5, 0, 2), 0);
    assert_eq!(worth.end, 60);
}

#[test]
fn value_does_not_wrap_the_start_state() {
    let worth = value_pitch(&table(), state(4, 0, 0, 0), state(0, 0, 0, 0), 0);
    assert_eq!(worth, Valuation { start: 0, end: 481, value: 481 });
    let worth = value_pitch(&table(), state(0, 0, 0, 3), state(0, 0, 0, 0), 0);
    assert_eq!(worth.start, 0);
}

#[test]
fn value_holds_at_the_extremes() {
    let t = vec![cell(0, 0, 0, 0, i32::MIN), cell(1, 0, 0, 0, i32::MAX)];
    let worth = value_pitch(&t, state(0, 0, 0, 0), state(1, 0, 0, 0), 255);
    assert_eq!(worth.value, i32::MAX as i64 - i32::MIN as i64 + 255000);
    let worth = value_pitch(&t, state(1, 0, 0, 0), state(0, 0, 0, 0), 0);
    assert_eq!(worth.value, i32::MIN as i64 - i32::MAX as i64);
}
