//! What holds of every reconstruction.

use vstd::prelude::*;
use crate::engine::{
    after_pitch, enter_plate_appearance, kickoff, pitch_fits, pitch_record, run_events, run_game,
    run_plate_appearance, settle_unassigned, spec_pitch_is_complete, step, Context, Progress,
};
use crate::boxscore::Lineup;
use crate::game::{context_of, reconstruction, MetaData, Pitch, PitcherSPRP, ReconstructError};
use crate::pitch_text::describable;
use crate::play_by_play::{Event, PlateAppearance, PlayEvent, PlayEventType, UNASSIGNED};
use crate::run_expectancy::{expectancy, BASES_LOADED, MILLIS_PER_RUN, RE288};
use crate::runners::{
    distinct, event_movements, lemma_track_distinct, lemma_without_base_distinct, track,
};

verus! {

/// The number of pitches among the events of a plate appearance.
pub open spec fn count_pitch_events(events: Seq<PlayEvent>) -> nat
    decreases events.len(),
{
    if events.len() == 0 {
        0
    } else if events.last().play_event_type == PlayEventType::Pitch {
        count_pitch_events(events.drop_last()) + 1
    } else {
        count_pitch_events(events.drop_last())
    }
}

/// The records that come from the plate appearance at the given position of
/// the input, in the order in which they were emitted.
pub open spec fn pitches_of(pitches: Seq<Pitch>, plate_appearance_ordinal: usize) -> Seq<Pitch>
    decreases pitches.len(),
{
    if pitches.len() == 0 {
        Seq::empty()
    } else if pitches.last().plate_appearance_ordinal == plate_appearance_ordinal {
        pitches_of(pitches.drop_last(), plate_appearance_ordinal).push(pitches.last())
    } else {
        pitches_of(pitches.drop_last(), plate_appearance_ordinal)
    }
}

/// The sum of the numbers that the records carry as their place among the
/// pitches of their plate appearance.
pub open spec fn sum_pitch_numbers(pitches: Seq<Pitch>) -> nat
    decreases pitches.len(),
{
    if pitches.len() == 0 {
        0
    } else {
        sum_pitch_numbers(pitches.drop_last()) + pitches.last().pitch_num_plate_appearance as nat
    }
}

/// Whether a pickoff attempt is pending after the given events: the last
/// of them that is a pickoff attempt or a pitch is a pickoff attempt.
pub open spec fn pickoff_pending(events: Seq<PlayEvent>) -> bool
    decreases events.len(),
{
    if events.len() == 0 {
        false
    } else {
        match events.last().play_event_type {
            PlayEventType::Pickoff => true,
            PlayEventType::Pitch => false,
            _ => pickoff_pending(events.drop_last()),
        }
    }
}

/// Whether an event is an action other than a substitution or a switch.
pub open spec fn is_stray_action(event: PlayEvent) -> bool {
    event.play_event_type == PlayEventType::Action && match event.event {
        Some(Event::DefensiveSubstitution) | Some(Event::DefensiveSwitch) | Some(
            Event::OffensiveSubstitution,
        ) | Some(Event::PitchingSubstitution) => false,
        _ => true,
    }
}

/// Whether the given events leave the state change of their plate
/// appearance with the batter: none of them is an action other than a
/// substitution or a switch.
pub open spec fn left_to_batter(events: Seq<PlayEvent>) -> bool
    decreases events.len(),
{
    if events.len() == 0 {
        true
    } else {
        left_to_batter(events.drop_last()) && !is_stray_action(events.last())
    }
}

/// The records of one plate appearance are numbered from one, and their
/// counts form a chain: the first starts from no balls and no strikes, and
/// each later one starts from the count that the one before ended with.
pub open spec fn numbered(records: Seq<Pitch>) -> bool {
    &&& forall|j: int|
        0 <= j < records.len() ==> (#[trigger] records[j]).pitch_num_plate_appearance == j + 1
    &&& records.len() > 0 ==> records[0].balls_start == 0 && records[0].strikes_start == 0
    &&& forall|i: int, j: int|
        0 <= i && j == i + 1 && j < records.len() ==> (#[trigger] records[j]).balls_start == (
        #[trigger] records[i]).balls_end && records[j].strikes_start == records[i].strikes_end
}

/// Whether a record carries what its plate appearance says of itself:
/// half-inning and inning, its number, which is its index and one, batter
/// and pitcher with the sides they bat and throw from, and its result.
pub open spec fn carries(record: Pitch, plate_appearance: PlateAppearance) -> bool {
    &&& record.half_inning == plate_appearance.half_inning
    &&& record.num_inning == plate_appearance.inning_num
    &&& record.num_plate_appearance == plate_appearance.plate_appearance_index + 1
    &&& record.batter == plate_appearance.batter_id
    &&& record.batter_bats == plate_appearance.batter_bat_side_code
    &&& record.batter_bats_desc == plate_appearance.batter_bat_side_desc
    &&& record.pitcher == plate_appearance.pitcher_id
    &&& record.pitcher_throws == plate_appearance.pitcher_pitch_hand_code
    &&& record.pitcher_throws_desc == plate_appearance.pitcher_pitch_hand_desc
    &&& record.plate_appearance_result == plate_appearance.plate_appearance_result
}

/// Once a record shows a reliever pitching in a half-inning, every later
/// record of the same half of an inning shows one.
spec fn reliever_stays(pitches: Seq<Pitch>) -> bool {
    forall|i: int, j: int|
        0 <= i < j < pitches.len() && (#[trigger] pitches[i]).half_inning == (
        #[trigger] pitches[j]).half_inning && pitches[i].pitcher_sp_rp == PitcherSPRP::RP
            ==> pitches[j].pitcher_sp_rp == PitcherSPRP::RP
}

/// What holds of a record by itself, and of a record and the event that it
/// came from.
spec fn record_sound(record: Pitch, plays: Seq<PlateAppearance>, table: Seq<RE288>) -> bool {
    &&& record.plate_appearance_ordinal < plays.len()
    &&& record.event_ordinal < plays[record.plate_appearance_ordinal as int].play_events@.len()
    &&& ({
        let event = plays[record.plate_appearance_ordinal as int].play_events@[record.event_ordinal as int];
        &&& event.play_event_type == PlayEventType::Pitch
        &&& event.balls == Some(record.balls_end)
        &&& event.strikes == Some(record.strikes_end)
    })
    &&& carries(record, plays[record.plate_appearance_ordinal as int])
    &&& record.preceded_by_pickoff == pickoff_pending(
        plays[record.plate_appearance_ordinal as int].play_events@.take(record.event_ordinal as int),
    )
    &&& record.re_288_batter_responsible == left_to_batter(
        plays[record.plate_appearance_ordinal as int].play_events@.take(record.event_ordinal as int),
    )
    &&& record.strikes_end == 3 <==> record.strikeout == 1
    &&& record.balls_end == 4 <==> record.walk == 1
    &&& record.strikeout == 0 || record.strikeout == 1
    &&& record.walk == 0 || record.walk == 1
    &&& record.base_value_start <= BASES_LOADED
    &&& record.base_value_end <= BASES_LOADED
    &&& record.re_288_val == record.re_288_end - record.re_288_start + MILLIS_PER_RUN
        * record.runs_scored
    &&& record.re_288_start == expectancy(
        table,
        record.balls_start,
        record.strikes_start,
        record.base_value_start,
        record.outs_start,
    )
    &&& record.re_288_end == if record.outs_end == 3 {
        0
    } else {
        expectancy(
            table,
            (record.balls_end % 4) as u8,
            (record.strikes_end % 3) as u8,
            record.base_value_end,
            (record.outs_end % 3) as u8,
        )
    }
    &&& record.double_play_opportunity <==> record.outs_start < 2 && (record.base_value_start == 1
        || record.base_value_start == 3 || record.base_value_start == 5
        || record.base_value_start == 7)
}

/// Wherever the half-inning of a record differs from that of the record
/// before it, and at the first record, the record starts with nobody out
/// and nobody on base.
spec fn starts_clean(pitches: Seq<Pitch>) -> bool {
    &&& pitches.len() > 0 ==> pitches[0].outs_start == 0 && pitches[0].base_value_start == 0
    &&& forall|i: int, j: int|
        0 <= i && j == i + 1 && j < pitches.len() && (#[trigger] pitches[i]).half_inning != (
        #[trigger] pitches[j]).half_inning ==> pitches[j].outs_start == 0
            && pitches[j].base_value_start == 0
}

/// The records are numbered from one in the order in which they stand.
spec fn numbered_in_game(pitches: Seq<Pitch>) -> bool {
    forall|i: int| 0 <= i < pitches.len() ==> (#[trigger] pitches[i]).pitch_num_game == i + 1
}

/// Each record but the first starts either with the outs and the bases
/// that the record before it ended with, or with nobody out and nobody on
/// base.
spec fn chained(pitches: Seq<Pitch>) -> bool {
    forall|i: int, j: int|
        0 <= i && j == i + 1 && j < pitches.len() ==> {
            ||| (#[trigger] pitches[j]).outs_start == (#[trigger] pitches[i]).outs_end
                && pitches[j].base_value_start == pitches[i].base_value_end
            ||| pitches[j].outs_start == 0 && pitches[j].base_value_start == 0
        }
}

/// What holds of the running state and the records emitted so far, at any
/// point of a reconstruction.
spec fn linked(progress: Progress) -> bool {
    &&& distinct(progress.runners)
    &&& starts_clean(progress.pitches)
    &&& chained(progress.pitches)
    &&& numbered_in_game(progress.pitches)
    &&& reliever_stays(progress.pitches)
    &&& forall|i: int|
        0 <= i < progress.pitches.len() && (#[trigger] progress.pitches[i]).pitcher_sp_rp
            == PitcherSPRP::RP ==> progress.counters.spec_pitching(
            progress.pitches[i].half_inning,
        ).role == PitcherSPRP::RP
    &&& progress.counters.pitch_num_game == progress.pitches.len()
    &&& progress.counters.base_value_start <= BASES_LOADED
    &&& clean_or_same_half(progress)
    &&& {
        ||| progress.pitches.len() > 0 && progress.counters.outs_start
            == progress.pitches.last().outs_end && progress.counters.base_value_start
            == progress.pitches.last().base_value_end
        ||| progress.counters.outs_start == 0 && progress.counters.base_value_start == 0
    }
}

/// What holds of the progress of a reconstruction between two plate
/// appearances, after the first `done` of them.
spec fn between(progress: Progress, plays: Seq<PlateAppearance>, table: Seq<RE288>, done: nat) -> bool {
    &&& done <= plays.len() <= usize::MAX
    &&& forall|i: int|
        0 <= i < progress.pitches.len() ==> record_sound(
            #[trigger] progress.pitches[i],
            plays,
            table,
        ) && progress.pitches[i].plate_appearance_ordinal < done
    &&& forall|k: int|
        0 <= k < done ==> {
            &&& numbered(#[trigger] pitches_of(progress.pitches, k as usize))
            &&& pitches_of(progress.pitches, k as usize).len() == count_pitch_events(
                plays[k].play_events@,
            )
        }
    &&& linked(progress)
}

/// Either the record emitted last is of the half-inning that the state is
/// in, or nobody is out and nobody on base.
spec fn clean_or_same_half(progress: Progress) -> bool {
    ||| progress.pitches.len() > 0 && progress.pitches.last().half_inning
        == progress.counters.previous_half_inning
    ||| progress.counters.outs_start == 0 && progress.counters.base_value_start == 0
}

/// What holds of the progress of a reconstruction inside the plate
/// appearance at position `at`, after the first `seen` of its events.
spec fn within(
    progress: Progress,
    plays: Seq<PlateAppearance>,
    table: Seq<RE288>,
    at: nat,
    seen: nat,
) -> bool {
    &&& at < plays.len() <= usize::MAX
    &&& seen <= plays[at as int].play_events@.len()
    &&& progress.counters.previous_half_inning == plays[at as int].half_inning
    &&& forall|i: int|
        0 <= i < progress.pitches.len() ==> record_sound(
            #[trigger] progress.pitches[i],
            plays,
            table,
        ) && progress.pitches[i].plate_appearance_ordinal <= at
    &&& forall|k: int|
        0 <= k < at ==> {
            &&& numbered(#[trigger] pitches_of(progress.pitches, k as usize))
            &&& pitches_of(progress.pitches, k as usize).len() == count_pitch_events(
                plays[k].play_events@,
            )
        }
    &&& ({
        let own = pitches_of(progress.pitches, at as usize);
        &&& numbered(own)
        &&& own.len() == count_pitch_events(plays[at as int].play_events@.take(seen as int))
        &&& progress.counters.pitch_num_plate_appearance == own.len()
        &&& progress.counters.balls_start == if own.len() == 0 {
            0
        } else {
            own.last().balls_end
        }
        &&& progress.counters.strikes_start == if own.len() == 0 {
            0
        } else {
            own.last().strikes_end
        }
    })
    &&& progress.counters.preceded_by_pickoff == pickoff_pending(
        plays[at as int].play_events@.take(seen as int),
    )
    &&& progress.counters.batter_responsible == left_to_batter(
        plays[at as int].play_events@.take(seen as int),
    )
    &&& linked(progress)
}


proof fn lemma_pitches_of_push(pitches: Seq<Pitch>, record: Pitch, plate_appearance_ordinal: usize)
    ensures
        pitches_of(pitches.push(record), plate_appearance_ordinal) == if record.plate_appearance_ordinal
            == plate_appearance_ordinal {
            pitches_of(pitches, plate_appearance_ordinal).push(record)
        } else {
            pitches_of(pitches, plate_appearance_ordinal)
        },
{
    assert(pitches.push(record).drop_last() =~= pitches);
}

proof fn lemma_pitches_of_none(pitches: Seq<Pitch>, plate_appearance_ordinal: usize)
    requires
        forall|i: int|
            0 <= i < pitches.len() ==> (#[trigger] pitches[i]).plate_appearance_ordinal
                != plate_appearance_ordinal,
    ensures
        pitches_of(pitches, plate_appearance_ordinal).len() == 0,
    decreases pitches.len(),
{
    if pitches.len() > 0 {
        assert forall|i: int| 0 <= i < pitches.drop_last().len() implies (
        #[trigger] pitches.drop_last()[i]).plate_appearance_ordinal != plate_appearance_ordinal by {
            assert(pitches.drop_last()[i] == pitches[i]);
        }
        lemma_pitches_of_none(pitches.drop_last(), plate_appearance_ordinal);
    }
}

/// What one more event adds to what is read off the events seen so far.
proof fn lemma_one_more_event(events: Seq<PlayEvent>, seen: int)
    requires
        0 <= seen < events.len(),
    ensures
        count_pitch_events(events.take(seen + 1)) == count_pitch_events(events.take(seen)) + if events[seen].play_event_type
            == PlayEventType::Pitch {
            1nat
        } else {
            0nat
        },
        pickoff_pending(events.take(seen + 1)) == match events[seen].play_event_type {
            PlayEventType::Pickoff => true,
            PlayEventType::Pitch => false,
            _ => pickoff_pending(events.take(seen)),
        },
        left_to_batter(events.take(seen + 1)) == (left_to_batter(events.take(seen))
            && !is_stray_action(events[seen])),
{
    assert(events.take(seen + 1).drop_last() =~= events.take(seen));
}

/// The events of a plate appearance can be counted in a `usize`.
proof fn lemma_events_bounded(plate_appearance: PlateAppearance)
    ensures
        plate_appearance.play_events@.len() <= usize::MAX,
{
    assert(plate_appearance.play_events.len() == plate_appearance.play_events@.len());
}

/// One more record keeps what holds of the records as a sequence.
proof fn lemma_push_linked(pitches: Seq<Pitch>, record: Pitch)
    requires
        starts_clean(pitches),
        chained(pitches),
        numbered_in_game(pitches),
        reliever_stays(pitches),
        forall|i: int|
            0 <= i < pitches.len() && (#[trigger] pitches[i]).half_inning == record.half_inning
                && pitches[i].pitcher_sp_rp == PitcherSPRP::RP ==> record.pitcher_sp_rp
                == PitcherSPRP::RP,
        record.pitch_num_game == pitches.len() + 1,
        pitches.len() == 0 || pitches.last().half_inning != record.half_inning
            ==> record.outs_start == 0 && record.base_value_start == 0,
        pitches.len() > 0 ==> {
            ||| record.outs_start == pitches.last().outs_end && record.base_value_start
                == pitches.last().base_value_end
            ||| record.outs_start == 0 && record.base_value_start == 0
        },
    ensures
        starts_clean(pitches.push(record)),
        chained(pitches.push(record)),
        numbered_in_game(pitches.push(record)),
        reliever_stays(pitches.push(record)),
{
    let grown = pitches.push(record);
    assert forall|i: int, j: int|
        0 <= i < j < grown.len() && (#[trigger] grown[i]).half_inning == (
        #[trigger] grown[j]).half_inning && grown[i].pitcher_sp_rp
            == PitcherSPRP::RP implies grown[j].pitcher_sp_rp == PitcherSPRP::RP by {
        if j < pitches.len() {
            assert(grown[j] == pitches[j]);
        }
    }
    assert forall|i: int| 0 <= i < grown.len() implies (#[trigger] grown[i]).pitch_num_game == i
        + 1 by {
        if i < pitches.len() {
            assert(grown[i] == pitches[i]);
        }
    }
    assert forall|i: int, j: int|
        0 <= i && j == i + 1 && j < grown.len() && (#[trigger] grown[i]).half_inning != (
        #[trigger] grown[j]).half_inning implies grown[j].outs_start == 0
        && grown[j].base_value_start == 0 by {
        if j < pitches.len() {
            assert(grown[j] == pitches[j]);
        }
    }
    assert forall|i: int, j: int| 0 <= i && j == i + 1 && j < grown.len() implies {
        ||| (#[trigger] grown[j]).outs_start == (#[trigger] grown[i]).outs_end
            && grown[j].base_value_start == grown[i].base_value_end
        ||| grown[j].outs_start == 0 && grown[j].base_value_start == 0
    } by {
        if j < pitches.len() {
            assert(grown[j] == pitches[j]);
        }
    }
    if pitches.len() > 0 {
        assert(grown[0] == pitches[0]);
    }
}

/// One event keeps what holds of the running state and the records.
proof fn lemma_step_linked(
    progress: Progress,
    after: Progress,
    plate_appearance: PlateAppearance,
    plate_appearance_ordinal: usize,
    event_ordinal: usize,
    context: Context,
)
    requires
        linked(progress),
        progress.counters.previous_half_inning == plate_appearance.half_inning,
        event_ordinal < plate_appearance.play_events@.len(),
        step(progress, plate_appearance, plate_appearance_ordinal, event_ordinal, context) == Ok::<
            Progress,
            ReconstructError,
        >(after),
    ensures
        linked(after),
        after.counters.previous_half_inning == plate_appearance.half_inning,
{
    let event = plate_appearance.play_events@[event_ordinal as int];
    let runners = track(progress.runners, plate_appearance.runners@, event.index);
    lemma_track_distinct(progress.runners, plate_appearance.runners@, event.index);
    match event.play_event_type {
        PlayEventType::Pitch => {
            let record = after.pitches.last();
            lemma_push_linked(progress.pitches, record);
            assert forall|i: int|
                0 <= i < after.pitches.len() && (#[trigger] after.pitches[i]).pitcher_sp_rp
                    == PitcherSPRP::RP implies after.counters.spec_pitching(
                after.pitches[i].half_inning,
            ).role == PitcherSPRP::RP by {
                if i < progress.pitches.len() {
                    assert(after.pitches[i] == progress.pitches[i]);
                }
            }
        },
        PlayEventType::Action => {
            match (event.event, event.base) {
                (Some(Event::OffensiveSubstitution), Some(base)) => {
                    lemma_without_base_distinct(runners, base.spec_occupancy());
                },
                _ => {},
            }
        },
        _ => {},
    }
}

/// The record of a pitch is sound.
proof fn lemma_record_sound(
    progress: Progress,
    plays: Seq<PlateAppearance>,
    at: nat,
    seen: nat,
    context: Context,
)
    requires
        at < plays.len() <= usize::MAX,
        seen < plays[at as int].play_events@.len(),
        plays[at as int].play_events@[seen as int].play_event_type == PlayEventType::Pitch,
        spec_pitch_is_complete(plays[at as int].play_events@[seen as int]),
        pitch_fits(
            progress.counters,
            plays[at as int],
            event_movements(
                plays[at as int].runners@,
                plays[at as int].play_events@[seen as int].index,
            ),
        ),
        progress.counters.preceded_by_pickoff == pickoff_pending(
            plays[at as int].play_events@.take(seen as int),
        ),
        progress.counters.batter_responsible == left_to_batter(
            plays[at as int].play_events@.take(seen as int),
        ),
    ensures
        record_sound(
            pitch_record(
                progress.counters,
                track(
                    progress.runners,
                    plays[at as int].runners@,
                    plays[at as int].play_events@[seen as int].index,
                ),
                event_movements(
                    plays[at as int].runners@,
                    plays[at as int].play_events@[seen as int].index,
                ),
                plays[at as int],
                at as usize,
                seen as usize,
                context,
            ),
            plays,
            context.table@,
        ),
{
    lemma_events_bounded(plays[at as int]);
}

/// One event keeps what holds inside a plate appearance.
proof fn lemma_step_within(
    progress: Progress,
    after: Progress,
    plays: Seq<PlateAppearance>,
    at: nat,
    seen: nat,
    context: Context,
)
    requires
        within(progress, plays, context.table@, at, seen),
        seen < plays[at as int].play_events@.len(),
        step(progress, plays[at as int], at as usize, seen as usize, context) == Ok::<
            Progress,
            ReconstructError,
        >(after),
    ensures
        within(after, plays, context.table@, at, seen + 1),
{
    let table = context.table@;
    let plate_appearance = plays[at as int];
    let event = plate_appearance.play_events@[seen as int];
    lemma_events_bounded(plate_appearance);
    lemma_one_more_event(plate_appearance.play_events@, seen as int);
    lemma_step_linked(progress, after, plate_appearance, at as usize, seen as usize, context);
    if event.play_event_type == PlayEventType::Pitch {
        let moved = event_movements(plate_appearance.runners@, event.index);
        let runners = track(progress.runners, plate_appearance.runners@, event.index);
        let record = pitch_record(
            progress.counters,
            runners,
            moved,
            plate_appearance,
            at as usize,
            seen as usize,
            context,
        );
        lemma_record_sound(progress, plays, at, seen, context);
        assert forall|i: int| 0 <= i < after.pitches.len() implies record_sound(
            #[trigger] after.pitches[i],
            plays,
            table,
        ) && after.pitches[i].plate_appearance_ordinal <= at by {
            if i < progress.pitches.len() {
                assert(after.pitches[i] == progress.pitches[i]);
            }
        }
        assert forall|k: int| 0 <= k < at implies {
            &&& numbered(#[trigger] pitches_of(after.pitches, k as usize))
            &&& pitches_of(after.pitches, k as usize).len() == count_pitch_events(
                plays[k].play_events@,
            )
        } by {
            lemma_pitches_of_push(progress.pitches, record, k as usize);
        }
        lemma_pitches_of_push(progress.pitches, record, at as usize);
        let own = pitches_of(progress.pitches, at as usize);
        let grown = pitches_of(after.pitches, at as usize);
        assert(numbered(grown)) by {
            assert forall|j: int| 0 <= j < grown.len() implies (
            #[trigger] grown[j]).pitch_num_plate_appearance == j + 1 by {
                if j < own.len() {
                    assert(grown[j] == own[j]);
                }
            }
            assert forall|i: int, j: int| 0 <= i && j == i + 1 && j < grown.len() implies (
            #[trigger] grown[j]).balls_start == (#[trigger] grown[i]).balls_end
                && grown[j].strikes_start == grown[i].strikes_end by {
                if j < own.len() {
                    assert(grown[j] == own[j]);
                }
            }
            if own.len() > 0 {
                assert(grown[0] == own[0]);
            }
        }
    }
}

/// Entering a plate appearance leads from what holds between plate
/// appearances to what holds inside one.
proof fn lemma_enter_within(
    progress: Progress,
    entered: Progress,
    plays: Seq<PlateAppearance>,
    table: Seq<RE288>,
    at: nat,
)
    requires
        between(progress, plays, table, at),
        at < plays.len(),
        enter_plate_appearance(progress, plays[at as int]) == Ok::<Progress, ReconstructError>(
            entered,
        ),
    ensures
        within(entered, plays, table, at, 0),
{
    lemma_pitches_of_none(progress.pitches, at as usize);
}

proof fn lemma_run_events_within(
    entered: Progress,
    after: Progress,
    plays: Seq<PlateAppearance>,
    at: nat,
    context: Context,
    seen: nat,
)
    requires
        within(entered, plays, context.table@, at, 0),
        seen <= plays[at as int].play_events@.len(),
        run_events(entered, plays[at as int], at as usize, context, seen) == Ok::<
            Progress,
            ReconstructError,
        >(after),
    ensures
        within(after, plays, context.table@, at, seen),
    decreases seen,
{
    if seen > 0 {
        lemma_events_bounded(plays[at as int]);
        let before = run_events(entered, plays[at as int], at as usize, context, (seen - 1) as nat);
        lemma_run_events_within(entered, before->Ok_0, plays, at, context, (seen - 1) as nat);
        lemma_step_within(before->Ok_0, after, plays, at, (seen - 1) as nat, context);
    }
}

/// A whole plate appearance keeps what holds between plate appearances.
proof fn lemma_run_plate_appearance_between(
    progress: Progress,
    after: Progress,
    plays: Seq<PlateAppearance>,
    at: nat,
    context: Context,
)
    requires
        between(progress, plays, context.table@, at),
        at < plays.len(),
        run_plate_appearance(progress, plays[at as int], at as usize, context) == Ok::<
            Progress,
            ReconstructError,
        >(after),
    ensures
        between(after, plays, context.table@, at + 1),
{
    let table = context.table@;
    let plate_appearance = plays[at as int];
    let entered = enter_plate_appearance(progress, plate_appearance);
    lemma_enter_within(progress, entered->Ok_0, plays, table, at);
    let events = plate_appearance.play_events@;
    if events.len() == 0 {
        lemma_track_distinct((entered->Ok_0).runners, plate_appearance.runners@, UNASSIGNED);
    } else {
        lemma_run_events_within(entered->Ok_0, after, plays, at, context, events.len());
    }
    assert(events.take(events.len() as int) =~= events);
    assert forall|k: int| 0 <= k < at + 1 implies {
        &&& numbered(#[trigger] pitches_of(after.pitches, k as usize))
        &&& pitches_of(after.pitches, k as usize).len() == count_pitch_events(plays[k].play_events@)
    } by {
        if k == at {
            assert(k as usize == at as usize);
        }
    }
}

proof fn lemma_run_game_between(
    start: Progress,
    after: Progress,
    plays: Seq<PlateAppearance>,
    context: Context,
    done: nat,
)
    requires
        between(start, plays, context.table@, 0),
        done <= plays.len(),
        run_game(start, plays, context, done) == Ok::<Progress, ReconstructError>(after),
    ensures
        between(after, plays, context.table@, done),
    decreases done,
{
    if done > 0 {
        let before = run_game(start, plays, context, (done - 1) as nat);
        lemma_run_game_between(start, before->Ok_0, plays, context, (done - 1) as nat);
        lemma_run_plate_appearance_between(before->Ok_0, after, plays, (done - 1) as nat, context);
    }
}

/// What holds of the records of a game that has a boxscore.
proof fn lemma_reconstruction_between(
    plays: &Vec<PlateAppearance>,
    game_pk: u32,
    meta: &MetaData,
    pitches: Seq<Pitch>,
)
    requires
        meta.boxscore@.contains_key(game_pk),
        reconstruction(plays@, game_pk, meta) == Ok::<Seq<Pitch>, ReconstructError>(pitches),
    ensures
        forall|i: int|
            0 <= i < pitches.len() ==> record_sound(
                #[trigger] pitches[i],
                plays@,
                meta.re_288_default@,
            ),
        forall|k: int|
            0 <= k < plays@.len() ==> {
                &&& numbered(#[trigger] pitches_of(pitches, k as usize))
                &&& pitches_of(pitches, k as usize).len() == count_pitch_events(
                    plays@[k].play_events@,
                )
            },
        starts_clean(pitches),
        chained(pitches),
        numbered_in_game(pitches),
        reliever_stays(pitches),
{
    assert(plays.len() == plays@.len());
    let box_score = meta.boxscore@[game_pk];
    let context = context_of(meta.schedule@[game_pk], &box_score, meta);
    let start = kickoff(box_score.home_defense, box_score.away_defense);
    let run = run_game(start, plays@, context, plays@.len());
    lemma_run_game_between(start, run->Ok_0, plays@, context, plays@.len());
}

/// The records of a game, sound one by one, whether the game has a boxscore
/// or not.
proof fn lemma_reconstruction_sound(
    plays: &Vec<PlateAppearance>,
    game_pk: u32,
    meta: &MetaData,
    pitches: Seq<Pitch>,
    i: int,
)
    requires
        reconstruction(plays@, game_pk, meta) == Ok::<Seq<Pitch>, ReconstructError>(pitches),
        0 <= i < pitches.len(),
    ensures
        record_sound(pitches[i], plays@, meta.re_288_default@),
        starts_clean(pitches),
        chained(pitches),
        numbered_in_game(pitches),
        reliever_stays(pitches),
{
    if meta.boxscore@.contains_key(game_pk) {
        lemma_reconstruction_between(plays, game_pk, meta, pitches);
    }
}

proof fn lemma_numbered_sum(records: Seq<Pitch>)
    requires
        numbered(records),
    ensures
        2 * sum_pitch_numbers(records) == records.len() * (records.len() + 1),
    decreases records.len(),
{
    if records.len() > 0 {
        let init = records.drop_last();
        assert(numbered(init)) by {
            assert forall|j: int| 0 <= j < init.len() implies (
            #[trigger] init[j]).pitch_num_plate_appearance == j + 1 by {
                assert(init[j] == records[j]);
            }
            assert forall|i: int, j: int| 0 <= i && j == i + 1 && j < init.len() implies (
            #[trigger] init[j]).balls_start == (#[trigger] init[i]).balls_end
                && init[j].strikes_start == init[i].strikes_end by {
                assert(init[j] == records[j]);
            }
            if init.len() > 0 {
                assert(init[0] == records[0]);
            }
        }
        lemma_numbered_sum(init);
        let n = records.len() as int;
        assert((n - 1) * n + 2 * n == n * (n + 1)) by (nonlinear_arith);
    }
}

/// In a game that has a boxscore, the plate appearance at each position of
/// the input has as many records as it has pitch events, and so has, in any
/// game, a plate appearance without pitch events. The records carry the
/// numbers one, two, three and so on as their place among the pitches of
/// the plate appearance, the first starts from no balls and no strikes, and
/// each later one starts from the count that the one before ended with.
pub proof fn law_pitches_numbered(
    plays: &Vec<PlateAppearance>,
    game_pk: u32,
    meta: &MetaData,
    pitches: Seq<Pitch>,
    plate_appearance_ordinal: usize,
)
    requires
        reconstruction(plays@, game_pk, meta) == Ok::<Seq<Pitch>, ReconstructError>(pitches),
        plate_appearance_ordinal < plays@.len(),
        meta.boxscore@.contains_key(game_pk) || count_pitch_events(
            plays@[plate_appearance_ordinal as int].play_events@,
        ) == 0,
    ensures
        pitches_of(pitches, plate_appearance_ordinal).len() == count_pitch_events(
            plays@[plate_appearance_ordinal as int].play_events@,
        ),
        numbered(pitches_of(pitches, plate_appearance_ordinal)),
{
    if meta.boxscore@.contains_key(game_pk) {
        lemma_reconstruction_between(plays, game_pk, meta, pitches);
        assert(numbered(pitches_of(pitches, (plate_appearance_ordinal as int) as usize)));
    }
}

/// The numbers that the records of a plate appearance carry as their place
/// among its pitches add up to the sum of the numbers from one to the count
/// of its pitch events, in a game that has a boxscore and for a plate
/// appearance without pitch events.
pub proof fn law_pitch_number_sum(
    plays: &Vec<PlateAppearance>,
    game_pk: u32,
    meta: &MetaData,
    pitches: Seq<Pitch>,
    plate_appearance_ordinal: usize,
)
    requires
        reconstruction(plays@, game_pk, meta) == Ok::<Seq<Pitch>, ReconstructError>(pitches),
        plate_appearance_ordinal < plays@.len(),
        meta.boxscore@.contains_key(game_pk) || count_pitch_events(
            plays@[plate_appearance_ordinal as int].play_events@,
        ) == 0,
    ensures
        ({
            let count = count_pitch_events(plays@[plate_appearance_ordinal as int].play_events@);
            2 * sum_pitch_numbers(pitches_of(pitches, plate_appearance_ordinal)) == count * (count
                + 1)
        }),
{
    law_pitches_numbered(plays, game_pk, meta, pitches, plate_appearance_ordinal);
    lemma_numbered_sum(pitches_of(pitches, plate_appearance_ordinal));
}

/// For a plate appearance without pitch events, and in a game that has a
/// boxscore for a plate appearance with one pitch event, the numbers that
/// the records of the plate appearance carry as their place among its
/// pitches add up to the count of its pitch events.
pub proof fn law_pitch_number_sum_is_count(
    plays: &Vec<PlateAppearance>,
    game_pk: u32,
    meta: &MetaData,
    pitches: Seq<Pitch>,
    plate_appearance_ordinal: usize,
)
    requires
        reconstruction(plays@, game_pk, meta) == Ok::<Seq<Pitch>, ReconstructError>(pitches),
        plate_appearance_ordinal < plays@.len(),
        count_pitch_events(plays@[plate_appearance_ordinal as int].play_events@) <= 1,
        meta.boxscore@.contains_key(game_pk) || count_pitch_events(
            plays@[plate_appearance_ordinal as int].play_events@,
        ) == 0,
    ensures
        sum_pitch_numbers(pitches_of(pitches, plate_appearance_ordinal)) == count_pitch_events(
            plays@[plate_appearance_ordinal as int].play_events@,
        ),
{
    law_pitch_number_sum(plays, game_pk, meta, pitches, plate_appearance_ordinal);
    let count = count_pitch_events(plays@[plate_appearance_ordinal as int].play_events@);
    assert(count * (count + 1) == 2 * count) by (nonlinear_arith)
        requires
            count <= 1,
    ;
}

/// The records of a game are numbered from one in the order in which they
/// stand.
pub proof fn law_pitches_numbered_in_game(
    plays: &Vec<PlateAppearance>,
    game_pk: u32,
    meta: &MetaData,
    pitches: Seq<Pitch>,
    i: int,
)
    requires
        reconstruction(plays@, game_pk, meta) == Ok::<Seq<Pitch>, ReconstructError>(pitches),
        0 <= i < pitches.len(),
    ensures
        pitches[i].pitch_num_game == i + 1,
{
    lemma_reconstruction_sound(plays, game_pk, meta, pitches, i);
}

/// Every record comes from a pitch event of the input and ends with the
/// count that the event reports. It flags a strikeout exactly where it ends
/// with three strikes, and a walk exactly where it ends with four balls.
pub proof fn law_count_as_reported(
    plays: &Vec<PlateAppearance>,
    game_pk: u32,
    meta: &MetaData,
    pitches: Seq<Pitch>,
    i: int,
)
    requires
        reconstruction(plays@, game_pk, meta) == Ok::<Seq<Pitch>, ReconstructError>(pitches),
        0 <= i < pitches.len(),
    ensures
        pitches[i].plate_appearance_ordinal < plays@.len(),
        pitches[i].event_ordinal < plays@[pitches[i].plate_appearance_ordinal as int].play_events@.len(),
        ({
            let event = plays@[pitches[i].plate_appearance_ordinal as int].play_events@[pitches[i].event_ordinal as int];
            &&& event.play_event_type == PlayEventType::Pitch
            &&& event.balls == Some(pitches[i].balls_end)
            &&& event.strikes == Some(pitches[i].strikes_end)
        }),
        pitches[i].strikes_end == 3 <==> pitches[i].strikeout == 1,
        pitches[i].balls_end == 4 <==> pitches[i].walk == 1,
{
    lemma_reconstruction_sound(plays, game_pk, meta, pitches, i);
}

/// The worth of a pitch is the run expectancy that it ends with, less the
/// one that it starts from, plus the runs scored on it, in thousandths of a
/// run. The expectancy that it starts from is the table's for the state at
/// the start of the pitch. The one that it ends with is zero where the
/// pitch ends with three outs, and otherwise the table's for the state at
/// the end of the pitch, with balls taken modulo four and strikes and outs
/// modulo three.
pub proof fn law_run_expectancy_round_trip(
    plays: &Vec<PlateAppearance>,
    game_pk: u32,
    meta: &MetaData,
    pitches: Seq<Pitch>,
    i: int,
)
    requires
        reconstruction(plays@, game_pk, meta) == Ok::<Seq<Pitch>, ReconstructError>(pitches),
        0 <= i < pitches.len(),
    ensures
        pitches[i].re_288_val == pitches[i].re_288_end - pitches[i].re_288_start + MILLIS_PER_RUN
            * pitches[i].runs_scored,
        pitches[i].re_288_start == expectancy(
            meta.re_288_default@,
            pitches[i].balls_start,
            pitches[i].strikes_start,
            pitches[i].base_value_start,
            pitches[i].outs_start,
        ),
        pitches[i].outs_end != 3 ==> pitches[i].re_288_end == expectancy(
            meta.re_288_default@,
            (pitches[i].balls_end % 4) as u8,
            (pitches[i].strikes_end % 3) as u8,
            pitches[i].base_value_end,
            (pitches[i].outs_end % 3) as u8,
        ),
        pitches[i].outs_end == 3 ==> pitches[i].re_288_end == 0,
{
    lemma_reconstruction_sound(plays, game_pk, meta, pitches, i);
}

/// The first record of a game, and every record whose half-inning differs
/// from that of the record before it, starts with nobody out and nobody on
/// base, however the half-inning before ended.
pub proof fn law_half_inning_starts_clean(
    plays: &Vec<PlateAppearance>,
    game_pk: u32,
    meta: &MetaData,
    pitches: Seq<Pitch>,
    i: int,
)
    requires
        reconstruction(plays@, game_pk, meta) == Ok::<Seq<Pitch>, ReconstructError>(pitches),
        0 <= i < pitches.len(),
        i == 0 || pitches[i - 1].half_inning != pitches[i].half_inning,
    ensures
        pitches[i].outs_start == 0,
        pitches[i].base_value_start == 0,
{
    lemma_reconstruction_sound(plays, game_pk, meta, pitches, i);
}

/// Every record but the first starts either with the outs and the bases
/// that the record before it ended with, or with nobody out and nobody on
/// base.
pub proof fn law_start_follows_end(
    plays: &Vec<PlateAppearance>,
    game_pk: u32,
    meta: &MetaData,
    pitches: Seq<Pitch>,
    i: int,
)
    requires
        reconstruction(plays@, game_pk, meta) == Ok::<Seq<Pitch>, ReconstructError>(pitches),
        0 < i < pitches.len(),
    ensures
        ({
            ||| pitches[i].outs_start == pitches[i - 1].outs_end && pitches[i].base_value_start
                == pitches[i - 1].base_value_end
            ||| pitches[i].outs_start == 0 && pitches[i].base_value_start == 0
        }),
{
    lemma_reconstruction_sound(plays, game_pk, meta, pitches, i);
}

/// A record flags a double-play opportunity exactly where it starts with
/// fewer than two outs and a base-occupancy code of one, three, five or
/// seven. Its base-occupancy codes never exceed seven.
pub proof fn law_double_play_opportunity(
    plays: &Vec<PlateAppearance>,
    game_pk: u32,
    meta: &MetaData,
    pitches: Seq<Pitch>,
    i: int,
)
    requires
        reconstruction(plays@, game_pk, meta) == Ok::<Seq<Pitch>, ReconstructError>(pitches),
        0 <= i < pitches.len(),
    ensures
        pitches[i].double_play_opportunity <==> pitches[i].outs_start < 2 && (
        pitches[i].base_value_start == 1 || pitches[i].base_value_start == 3
            || pitches[i].base_value_start == 5 || pitches[i].base_value_start == 7),
        pitches[i].base_value_start <= BASES_LOADED,
        pitches[i].base_value_end <= BASES_LOADED,
{
    lemma_reconstruction_sound(plays, game_pk, meta, pitches, i);
}

/// A record says that a pickoff attempt preceded its pitch exactly where,
/// among the events of its plate appearance before the pitch, the last that
/// is a pickoff attempt or a pitch is a pickoff attempt. It leaves the state
/// change with the batter exactly where none of those events is an action
/// other than a substitution or a switch.
pub proof fn law_flags_follow_events(
    plays: &Vec<PlateAppearance>,
    game_pk: u32,
    meta: &MetaData,
    pitches: Seq<Pitch>,
    i: int,
)
    requires
        reconstruction(plays@, game_pk, meta) == Ok::<Seq<Pitch>, ReconstructError>(pitches),
        0 <= i < pitches.len(),
    ensures
        pitches[i].plate_appearance_ordinal < plays@.len(),
        pitches[i].preceded_by_pickoff == pickoff_pending(
            plays@[pitches[i].plate_appearance_ordinal as int].play_events@.take(
                pitches[i].event_ordinal as int,
            ),
        ),
        pitches[i].re_288_batter_responsible == left_to_batter(
            plays@[pitches[i].plate_appearance_ordinal as int].play_events@.take(
                pitches[i].event_ordinal as int,
            ),
        ),
{
    lemma_reconstruction_sound(plays, game_pk, meta, pitches, i);
}

/// Every record carries what its plate appearance says of itself:
/// half-inning and inning, its number, batter and pitcher with the sides
/// they bat and throw from, and its result.
pub proof fn law_record_carries_plate_appearance(
    plays: &Vec<PlateAppearance>,
    game_pk: u32,
    meta: &MetaData,
    pitches: Seq<Pitch>,
    i: int,
)
    requires
        reconstruction(plays@, game_pk, meta) == Ok::<Seq<Pitch>, ReconstructError>(pitches),
        0 <= i < pitches.len(),
    ensures
        pitches[i].plate_appearance_ordinal < plays@.len(),
        carries(pitches[i], plays@[pitches[i].plate_appearance_ordinal as int]),
{
    lemma_reconstruction_sound(plays, game_pk, meta, pitches, i);
}

/// A pitching substitution makes a reliever for the rest of the game: once
/// a record shows a reliever pitching in the top or in the bottom half,
/// every later record of that half of an inning shows one.
pub proof fn law_reliever_stays(
    plays: &Vec<PlateAppearance>,
    game_pk: u32,
    meta: &MetaData,
    pitches: Seq<Pitch>,
    i: int,
    j: int,
)
    requires
        reconstruction(plays@, game_pk, meta) == Ok::<Seq<Pitch>, ReconstructError>(pitches),
        0 <= i < j < pitches.len(),
        pitches[i].half_inning == pitches[j].half_inning,
        pitches[i].pitcher_sp_rp == PitcherSPRP::RP,
    ensures
        pitches[j].pitcher_sp_rp == PitcherSPRP::RP,
{
    lemma_reconstruction_sound(plays, game_pk, meta, pitches, i);
}

/// However far a game has been played through, no runner is tracked twice.
pub proof fn law_runners_tracked_once(
    home_defense: Lineup,
    away_defense: Lineup,
    plays: &Vec<PlateAppearance>,
    context: Context,
    done: nat,
    progress: Progress,
)
    requires
        done <= plays@.len(),
        run_game(kickoff(home_defense, away_defense), plays@, context, done) == Ok::<
            Progress,
            ReconstructError,
        >(progress),
    ensures
        distinct(progress.runners),
{
    assert(plays.len() == plays@.len());
    let start = kickoff(home_defense, away_defense);
    lemma_run_game_between(start, progress, plays@, context, done);
}

/// The texts of every record of a reconstruction can be found: the game has
/// a schedule entry and a boxscore, and the record names an event of the
/// input.
pub proof fn law_records_describable(
    plays: &Vec<PlateAppearance>,
    game_pk: u32,
    meta: &MetaData,
    pitches: Seq<Pitch>,
    i: int,
)
    requires
        reconstruction(plays@, game_pk, meta) == Ok::<Seq<Pitch>, ReconstructError>(pitches),
        0 <= i < pitches.len(),
    ensures
        describable(pitches[i], plays@, game_pk, meta),
{
    lemma_reconstruction_sound(plays, game_pk, meta, pitches, i);
}

} // verus!
