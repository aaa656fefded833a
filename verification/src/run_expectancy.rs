//! Run expectancy by ball, strike, base and out state.
//!
//! Expectancies are held in thousandths of a run, so that every value in
//! this module is an exact integer.

use vstd::prelude::*;

verus! {

/// One cell of a run-expectancy table: the expected number of runs scored in
/// the remainder of the half-inning, in thousandths of a run, from the state
/// given by the four keys.
#[derive(Clone, Copy, Debug, PartialEq, Eq, Structural)]
pub struct RE288 {
    pub outs: u8,
    pub balls: u8,
    pub strikes: u8,
    pub base_value: u8,
    pub run_expectancy: i32,
}

/// Thousandths per run.
pub const MILLIS_PER_RUN: i64 = 1000;

/// The highest valid base-occupancy code: first, second and third all occupied.
pub const BASES_LOADED: u8 = 7;

impl RE288 {
    /// Whether this cell is the one for the given state.
    pub open spec fn spec_has_key(self, balls: u8, strikes: u8, base_value: u8, outs: u8) -> bool {
        self.balls == balls && self.strikes == strikes && self.base_value == base_value
            && self.outs == outs
    }

    #[verifier::when_used_as_spec(spec_has_key)]
    pub fn has_key(self, balls: u8, strikes: u8, base_value: u8, outs: u8) -> (b: bool)
        ensures
            b == self.spec_has_key(balls, strikes, base_value, outs),
    {
        self.balls == balls && self.strikes == strikes && self.base_value == base_value
            && self.outs == outs
    }
}

/// The expectancy that a table gives for a state: that of the last cell with
/// the state's key, and zero when no cell has it.
pub open spec fn expectancy(table: Seq<RE288>, balls: u8, strikes: u8, base_value: u8, outs: u8) -> i32
    decreases table.len(),
{
    if table.len() == 0 {
        0
    } else if table.last().has_key(balls, strikes, base_value, outs) {
        table.last().run_expectancy
    } else {
        expectancy(table.drop_last(), balls, strikes, base_value, outs)
    }
}

/// Looks a state up in a table.
pub fn lookup(table: &Vec<RE288>, balls: u8, strikes: u8, base_value: u8, outs: u8) -> (value: i32)
    ensures
        value == expectancy(table@, balls, strikes, base_value, outs),
{
    let mut i: usize = table.len();
    proof {
        assert(table@.take(i as int) =~= table@);
    }
    while i > 0
        invariant
            i <= table.len(),
            expectancy(table@, balls, strikes, base_value, outs) == expectancy(
                table@.take(i as int),
                balls,
                strikes,
                base_value,
                outs,
            ),
        decreases i,
    {
        let cell: RE288 = table[i - 1];
        proof {
            assert(table@.take(i as int).drop_last() =~= table@.take(i - 1));
        }
        if cell.has_key(balls, strikes, base_value, outs) {
            return cell.run_expectancy;
        }
        i = i - 1;
    }
    0
}

/// The count, base and out state before or after a pitch.
#[derive(Clone, Copy, Debug, PartialEq, Eq)]
pub struct CountState {
    pub balls: u8,
    pub strikes: u8,
    pub base_value: u8,
    pub outs: u8,
}

/// What a pitch was worth: the expectancy of the state before it, that of
/// the state after it, and the change between the two with the runs that
/// scored on the pitch added, all in thousandths of a run.
#[derive(Clone, Copy, Debug, PartialEq, Eq)]
pub struct Valuation {
    pub start: i32,
    pub end: i32,
    pub value: i64,
}

/// A base-occupancy code brought into the valid range: a code above
/// `BASES_LOADED` counts as `BASES_LOADED`.
pub open spec fn spec_clamp_base(base_value: u8) -> u8 {
    if base_value > BASES_LOADED {
        BASES_LOADED
    } else {
        base_value
    }
}

#[verifier::when_used_as_spec(spec_clamp_base)]
pub fn clamp_base(base_value: u8) -> (clamped: u8)
    ensures
        clamped == spec_clamp_base(base_value),
{
    if base_value > BASES_LOADED {
        BASES_LOADED
    } else {
        base_value
    }
}

/// The expectancy of the state before a pitch: the table's value for the
/// state as it stands.
pub open spec fn start_expectancy(table: Seq<RE288>, state: CountState) -> i32 {
    expectancy(table, state.balls, state.strikes, state.base_value, state.outs)
}

/// The expectancy of the state after a pitch. With three outs the
/// half-inning is over and nothing more can score. Otherwise it is the
/// table's value for the state with balls taken modulo four and strikes and
/// outs modulo three.
pub open spec fn end_expectancy(table: Seq<RE288>, state: CountState) -> i32 {
    if state.outs == 3 {
        0
    } else {
        expectancy(
            table,
            (state.balls % 4) as u8,
            (state.strikes % 3) as u8,
            state.base_value,
            (state.outs % 3) as u8,
        )
    }
}

/// The value of a pitch that led from `start` to `end` with `runs` scored.
pub open spec fn valuation(table: Seq<RE288>, start: CountState, end: CountState, runs: u8) -> Valuation {
    Valuation {
        start: start_expectancy(table, start),
        end: end_expectancy(table, end),
        value: (end_expectancy(table, end) - start_expectancy(table, start) + MILLIS_PER_RUN * runs) as i64,
    }
}

/// Values a pitch against a table.
pub fn value_pitch(table: &Vec<RE288>, start: CountState, end: CountState, runs: u8) -> (worth: Valuation)
    ensures
        worth == valuation(table@, start, end, runs),
        worth.value == worth.end - worth.start + MILLIS_PER_RUN * runs,
{
    let before: i32 = lookup(table, start.balls, start.strikes, start.base_value, start.outs);
    let after: i32 = if end.outs == 3 {
        0
    } else {
        lookup(table, end.balls % 4, end.strikes % 3, end.base_value, end.outs % 3)
    };
    let scored: i64 = MILLIS_PER_RUN * (runs as i64);
    Valuation { start: before, end: after, value: after as i64 - before as i64 + scored }
}

} // verus!
