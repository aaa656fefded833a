//! The state machine of the reconstruction: the running state of a game and
//! what each plate appearance and each event does to it.

use vstd::prelude::*;
use crate::boxscore::{batting_order, spec_batting_order, Lineup, Pos, RosterEntry};
use crate::game::{Pitch, PitcherSPRP, ReconstructError, Setup};
use crate::play_by_play::{
    pitch_type_of, spec_pitch_type_of, Event, HalfInning, Hardness, HitData, PitchOutcome,
    PitchTypeCode, PitchTypeDescription, PlateAppearance, PlayEvent, PlayEventType, RunnerMovement,
    Trajectory, UNASSIGNED,
};
use crate::run_expectancy::{
    clamp_base, spec_clamp_base, valuation, value_pitch, CountState, Valuation, RE288,
};
use crate::runners::{
    event_movements, fielded_by, fielder_on, occupancy_code, outs_on, runs_on, total_outs,
    total_runs, track, without_base, RunnerState,
};
use crate::text::{
    describes_bunt, impute_trajectory, imputed_trajectory, is_bunt, is_bunt_description, text_of,
};

verus! {

/// How a team's current pitcher has been used so far.
#[derive(Clone, Copy, Debug, PartialEq, Eq)]
pub struct PitcherUsage {
    pub role: PitcherSPRP,
    pub num_pitch: u16,
    pub num_plate_appearance: u16,
}

/// The running state of a game, apart from the runners on base.
#[derive(Clone, Copy, Debug, PartialEq, Eq)]
pub struct Counters {
    /// The half-inning of the plate appearance last entered.
    pub previous_half_inning: HalfInning,
    pub base_value_start: u8,
    pub outs_start: u8,
    pub pitch_num_inning: u8,
    pub pitch_num_game: u16,
    /// The home team's pitcher, who pitches in the top half.
    pub home_pitcher: PitcherUsage,
    /// The away team's pitcher, who pitches in the bottom half.
    pub away_pitcher: PitcherUsage,
    pub home_defense: Lineup,
    pub away_defense: Lineup,
    pub balls_start: u8,
    pub strikes_start: u8,
    pub pitch_num_plate_appearance: u8,
    pub preceded_by_pickoff: bool,
    pub batter_responsible: bool,
}

/// What is fixed while a game is played through: the game's setup, the two
/// rosters, and the run-expectancy table.
pub struct Context<'a> {
    pub setup: Setup,
    pub home_players: &'a Vec<RosterEntry>,
    pub away_players: &'a Vec<RosterEntry>,
    pub table: &'a Vec<RE288>,
}

/// How far a reconstruction has come: the running state, the runners on
/// base, and the records emitted so far.
pub struct Progress {
    pub counters: Counters,
    pub runners: Seq<RunnerMovement>,
    pub pitches: Seq<Pitch>,
}

impl PitcherUsage {
    /// The usage of a pitcher who starts the game.
    pub open spec fn spec_starter() -> PitcherUsage {
        PitcherUsage { role: PitcherSPRP::SP, num_pitch: 0, num_plate_appearance: 0 }
    }

    #[verifier::when_used_as_spec(spec_starter)]
    pub fn starter() -> (usage: PitcherUsage)
        ensures
            usage == PitcherUsage::spec_starter(),
    {
        PitcherUsage { role: PitcherSPRP::SP, num_pitch: 0, num_plate_appearance: 0 }
    }

    /// The usage of a pitcher who has just come into the game.
    pub open spec fn spec_reliever() -> PitcherUsage {
        PitcherUsage { role: PitcherSPRP::RP, num_pitch: 0, num_plate_appearance: 0 }
    }

    #[verifier::when_used_as_spec(spec_reliever)]
    pub fn reliever() -> (usage: PitcherUsage)
        ensures
            usage == PitcherUsage::spec_reliever(),
    {
        PitcherUsage { role: PitcherSPRP::RP, num_pitch: 0, num_plate_appearance: 0 }
    }
}

impl Counters {
    /// The state before the first plate appearance.
    pub open spec fn spec_initial(home_defense: Lineup, away_defense: Lineup) -> Counters {
        Counters {
            previous_half_inning: HalfInning::Top,
            base_value_start: 0,
            outs_start: 0,
            pitch_num_inning: 0,
            pitch_num_game: 0,
            home_pitcher: PitcherUsage::starter(),
            away_pitcher: PitcherUsage::starter(),
            home_defense,
            away_defense,
            balls_start: 0,
            strikes_start: 0,
            pitch_num_plate_appearance: 0,
            preceded_by_pickoff: false,
            batter_responsible: true,
        }
    }

    #[verifier::when_used_as_spec(spec_initial)]
    pub fn initial(home_defense: Lineup, away_defense: Lineup) -> (counters: Counters)
        ensures
            counters == Counters::spec_initial(home_defense, away_defense),
    {
        Counters {
            previous_half_inning: HalfInning::Top,
            base_value_start: 0,
            outs_start: 0,
            pitch_num_inning: 0,
            pitch_num_game: 0,
            home_pitcher: PitcherUsage::starter(),
            away_pitcher: PitcherUsage::starter(),
            home_defense,
            away_defense,
            balls_start: 0,
            strikes_start: 0,
            pitch_num_plate_appearance: 0,
            preceded_by_pickoff: false,
            batter_responsible: true,
        }
    }

    /// The pitcher of the team in the field: the home team's in the top
    /// half, the away team's in the bottom half.
    pub open spec fn spec_pitching(self, half: HalfInning) -> PitcherUsage {
        match half {
            HalfInning::Top => self.home_pitcher,
            HalfInning::Bottom => self.away_pitcher,
        }
    }

    #[verifier::when_used_as_spec(spec_pitching)]
    pub fn pitching(self, half: HalfInning) -> (usage: PitcherUsage)
        ensures
            usage == self.spec_pitching(half),
    {
        match half {
            HalfInning::Top => self.home_pitcher,
            HalfInning::Bottom => self.away_pitcher,
        }
    }

    /// The state with the usage of the pitcher of the team in the field
    /// replaced.
    pub open spec fn spec_with_pitching(self, half: HalfInning, usage: PitcherUsage) -> Counters {
        match half {
            HalfInning::Top => Counters { home_pitcher: usage, ..self },
            HalfInning::Bottom => Counters { away_pitcher: usage, ..self },
        }
    }

    #[verifier::when_used_as_spec(spec_with_pitching)]
    pub fn with_pitching(self, half: HalfInning, usage: PitcherUsage) -> (counters: Counters)
        ensures
            counters == self.spec_with_pitching(half, usage),
    {
        let mut counters: Counters = self;
        match half {
            HalfInning::Top => { counters.home_pitcher = usage; },
            HalfInning::Bottom => { counters.away_pitcher = usage; },
        }
        counters
    }

    /// The position assignment of the team in the field: the home team's in
    /// the top half, the away team's in the bottom half.
    pub open spec fn spec_fielding(self, half: HalfInning) -> Lineup {
        match half {
            HalfInning::Top => self.home_defense,
            HalfInning::Bottom => self.away_defense,
        }
    }

    #[verifier::when_used_as_spec(spec_fielding)]
    pub fn fielding(self, half: HalfInning) -> (lineup: Lineup)
        ensures
            lineup == self.spec_fielding(half),
    {
        match half {
            HalfInning::Top => self.home_defense,
            HalfInning::Bottom => self.away_defense,
        }
    }

    /// The state with the position assignment of the team in the field
    /// replaced. The other team's assignment stays as it is.
    pub open spec fn spec_with_fielding(self, half: HalfInning, lineup: Lineup) -> Counters {
        match half {
            HalfInning::Top => Counters { home_defense: lineup, ..self },
            HalfInning::Bottom => Counters { away_defense: lineup, ..self },
        }
    }

    #[verifier::when_used_as_spec(spec_with_fielding)]
    pub fn with_fielding(self, half: HalfInning, lineup: Lineup) -> (counters: Counters)
        ensures
            counters == self.spec_with_fielding(half, lineup),
    {
        let mut counters: Counters = self;
        match half {
            HalfInning::Top => { counters.home_defense = lineup; },
            HalfInning::Bottom => { counters.away_defense = lineup; },
        }
        counters
    }

    /// The state on entering a plate appearance in the given half-inning.
    /// The pitcher of the team in the field faces one more plate appearance.
    /// The count starts afresh, and so does the numbering of the pitches of
    /// the plate appearance. Where the half-inning differs from that of the
    /// plate appearance before, bases, outs and the numbering of the pitches
    /// of the inning start afresh as well. Fails where the pitcher has faced
    /// as many plate appearances as the counter can hold.
    pub open spec fn spec_enter(self, half: HalfInning) -> Result<Counters, ReconstructError> {
        let usage = self.pitching(half);
        if usage.num_plate_appearance == u16::MAX {
            Err(ReconstructError::CounterOverflow)
        } else {
            let faced = self.with_pitching(
                half,
                PitcherUsage {
                    num_plate_appearance: (usage.num_plate_appearance + 1) as u16,
                    ..usage
                },
            );
            let fresh = Counters {
                previous_half_inning: half,
                balls_start: 0,
                strikes_start: 0,
                pitch_num_plate_appearance: 0,
                preceded_by_pickoff: false,
                batter_responsible: true,
                ..faced
            };
            if half != self.previous_half_inning {
                Ok(Counters { base_value_start: 0, outs_start: 0, pitch_num_inning: 0, ..fresh })
            } else {
                Ok(fresh)
            }
        }
    }

    #[verifier::when_used_as_spec(spec_enter)]
    pub fn enter(self, half: HalfInning) -> (entered: Result<Counters, ReconstructError>)
        ensures
            entered == self.spec_enter(half),
    {
        let usage: PitcherUsage = self.pitching(half);
        if usage.num_plate_appearance == u16::MAX {
            return Err(ReconstructError::CounterOverflow);
        }
        let mut counters: Counters = self.with_pitching(
            half,
            PitcherUsage {
                role: usage.role,
                num_pitch: usage.num_pitch,
                num_plate_appearance: usage.num_plate_appearance + 1,
            },
        );
        counters.previous_half_inning = half;
        counters.balls_start = 0;
        counters.strikes_start = 0;
        counters.pitch_num_plate_appearance = 0;
        counters.preceded_by_pickoff = false;
        counters.batter_responsible = true;
        if half != self.previous_half_inning {
            counters.base_value_start = 0;
            counters.outs_start = 0;
            counters.pitch_num_inning = 0;
        }
        Ok(counters)
    }
}


/// Whether a ground ball could be turned into a double play: fewer than two
/// outs, and a runner on first base, which the odd base-occupancy codes up
/// to seven say.
pub open spec fn spec_double_play_opportunity(outs_start: u8, base_value_start: u8) -> bool {
    outs_start < 2 && (base_value_start == 1 || base_value_start == 3 || base_value_start == 5
        || base_value_start == 7)
}

#[verifier::when_used_as_spec(spec_double_play_opportunity)]
pub fn double_play_opportunity(outs_start: u8, base_value_start: u8) -> (chance: bool)
    ensures
        chance == spec_double_play_opportunity(outs_start, base_value_start),
{
    outs_start < 2 && (base_value_start == 1 || base_value_start == 3 || base_value_start == 5
        || base_value_start == 7)
}

/// One where the result of a plate appearance is the wanted one, else zero.
pub open spec fn spec_indicator(result: Event, wanted: Event) -> u8 {
    if result == wanted {
        1
    } else {
        0
    }
}

#[verifier::when_used_as_spec(spec_indicator)]
pub fn indicator(result: Event, wanted: Event) -> (flag: u8)
    ensures
        flag == spec_indicator(result, wanted),
{
    if result == wanted {
        1
    } else {
        0
    }
}

/// The result of a plate appearance as a ball in play is classified by:
/// the result itself, and `Event::Other` where the source gives none.
pub open spec fn spec_result_in_play(result: Option<Event>) -> Event {
    match result {
        Some(event) => event,
        None => Event::Other,
    }
}

#[verifier::when_used_as_spec(spec_result_in_play)]
pub fn result_in_play(result: Option<Event>) -> (event: Event)
    ensures
        event == spec_result_in_play(result),
{
    match result {
        Some(event) => event,
        None => Event::Other,
    }
}

/// The position that a substitute takes: the one that the event names, and
/// designated hitter where it names none.
pub open spec fn spec_position_taken(position: Option<Pos>) -> Pos {
    match position {
        Some(position) => position,
        None => Pos::DesignatedHitter,
    }
}

#[verifier::when_used_as_spec(spec_position_taken)]
pub fn position_taken(position: Option<Pos>) -> (taken: Pos)
    ensures
        taken == spec_position_taken(position),
{
    match position {
        Some(position) => position,
        None => Pos::DesignatedHitter,
    }
}

/// The trajectory that the batted-ball data of an event names.
pub open spec fn spec_tagged_trajectory(hit_data: Option<HitData>) -> Option<Trajectory> {
    match hit_data {
        Some(hit) => hit.trajectory,
        None => None,
    }
}

#[verifier::when_used_as_spec(spec_tagged_trajectory)]
pub fn tagged_trajectory(hit_data: Option<HitData>) -> (trajectory: Option<Trajectory>)
    ensures
        trajectory == spec_tagged_trajectory(hit_data),
{
    match hit_data {
        Some(hit) => hit.trajectory,
        None => None,
    }
}

/// How hard the ball was hit, by the batted-ball data of an event.
pub open spec fn spec_contact_quality(hit_data: Option<HitData>) -> Option<Hardness> {
    match hit_data {
        Some(hit) => hit.hardness,
        None => None,
    }
}

#[verifier::when_used_as_spec(spec_contact_quality)]
pub fn contact_quality(hit_data: Option<HitData>) -> (hardness: Option<Hardness>)
    ensures
        hardness == spec_contact_quality(hit_data),
{
    match hit_data {
        Some(hit) => hit.hardness,
        None => None,
    }
}

/// Whether the batted-ball data of an event gives both landing coordinates.
pub open spec fn spec_located(hit_data: Option<HitData>) -> bool {
    match hit_data {
        Some(hit) => hit.coord_x && hit.coord_y,
        None => false,
    }
}

#[verifier::when_used_as_spec(spec_located)]
pub fn located(hit_data: Option<HitData>) -> (both: bool)
    ensures
        both == spec_located(hit_data),
{
    match hit_data {
        Some(hit) => hit.coord_x && hit.coord_y,
        None => false,
    }
}

/// The trajectory of a pitch: the one that its batted-ball data names, and
/// where that names none and the ball was put in play, the one that the
/// description of the plate appearance suggests.
pub open spec fn pitch_trajectory(
    hit_data: Option<HitData>,
    in_play: bool,
    plate_appearance_description: Option<String>,
) -> Option<Trajectory> {
    match spec_tagged_trajectory(hit_data) {
        Some(trajectory) => Some(trajectory),
        None => if in_play {
            Some(imputed_trajectory(text_of(plate_appearance_description)))
        } else {
            None
        },
    }
}

/// Whether a pitch was bunted: by the trajectory that its batted-ball data
/// names, and where that names none and the ball was put in play, by the
/// description of the pitch.
pub open spec fn pitch_bunt(hit_data: Option<HitData>, in_play: bool, description: Option<String>) -> Option<
    bool,
> {
    match spec_tagged_trajectory(hit_data) {
        Some(trajectory) => Some(is_bunt(trajectory)),
        None => if in_play {
            Some(describes_bunt(text_of(description)))
        } else {
            None
        },
    }
}

/// Whether a pitch event has every field that a pitch needs.
pub open spec fn spec_pitch_is_complete(event: PlayEvent) -> bool {
    event.is_in_play is Some && event.code is Some && event.balls is Some && event.strikes is Some
        && event.pitch_data is Some
}

/// Whether the record of one more pitch of the plate appearance, on which
/// the given movements happened, can hold its numbers: the number of the
/// plate appearance fits, each pitch counter can be stepped, and outs and
/// runs stay within the range of their record fields.
pub open spec fn pitch_fits(
    counters: Counters,
    plate_appearance: PlateAppearance,
    moved: Seq<RunnerMovement>,
) -> bool {
    let half = plate_appearance.half_inning;
    &&& plate_appearance.plate_appearance_index < u8::MAX
    &&& counters.pitch_num_game < u16::MAX
    &&& counters.pitch_num_plate_appearance < u8::MAX
    &&& counters.pitch_num_inning < u8::MAX
    &&& counters.spec_pitching(half).num_pitch < u16::MAX
    &&& counters.outs_start + total_outs(moved) <= u8::MAX
    &&& total_runs(moved) <= u8::MAX
}

/// The team at bat and its parent club: the away team in the top half, the
/// home team in the bottom half.
pub open spec fn batting_team(setup: Setup, half: HalfInning) -> (u32, u32) {
    match half {
        HalfInning::Top => (setup.away_team_id, setup.away_parent_team_id),
        HalfInning::Bottom => (setup.home_team_id, setup.home_parent_team_id),
    }
}

/// The team in the field and its parent club: the home team in the top
/// half, the away team in the bottom half.
pub open spec fn fielding_team(setup: Setup, half: HalfInning) -> (u32, u32) {
    match half {
        HalfInning::Top => (setup.home_team_id, setup.home_parent_team_id),
        HalfInning::Bottom => (setup.away_team_id, setup.away_parent_team_id),
    }
}

/// The roster of the team at bat.
pub open spec fn batting_roster(context: Context, half: HalfInning) -> Seq<RosterEntry> {
    match half {
        HalfInning::Top => context.away_players@,
        HalfInning::Bottom => context.home_players@,
    }
}

/// The record of a pitch. `counters` is the state before the pitch,
/// `runners` the tracked runners after the movements of the pitch, and
/// `moved` those movements.
pub open spec fn pitch_record(
    counters: Counters,
    runners: Seq<RunnerMovement>,
    moved: Seq<RunnerMovement>,
    plate_appearance: PlateAppearance,
    plate_appearance_ordinal: usize,
    event_ordinal: usize,
    context: Context,
) -> Pitch {
    let event = plate_appearance.play_events@[event_ordinal as int];
    let half = plate_appearance.half_inning;
    let usage = counters.spec_pitching(half);
    let defense = counters.spec_fielding(half);
    let in_play = event.is_in_play->0;
    let outcome = (event.code->0).spec_outcome();
    let result = spec_result_in_play(plate_appearance.plate_appearance_result);
    let start = CountState {
        balls: counters.balls_start,
        strikes: counters.strikes_start,
        base_value: spec_clamp_base(counters.base_value_start),
        outs: counters.outs_start,
    };
    let end = CountState {
        balls: event.balls->0,
        strikes: event.strikes->0,
        base_value: occupancy_code(runners),
        outs: (counters.outs_start + total_outs(moved)) as u8,
    };
    let runs = total_runs(moved) as u8;
    let worth = valuation(context.table@, start, end, runs);
    let fielder = fielded_by(plate_appearance.runners@, event.index);
    Pitch {
        plate_appearance_ordinal,
        event_ordinal,
        half_inning: half,
        num_plate_appearance: (plate_appearance.plate_appearance_index + 1) as u8,
        num_inning: plate_appearance.inning_num,
        catcher_id: defense.catcher,
        first_base_id: defense.first_base,
        second_base_id: defense.second_base,
        short_stop_id: defense.short_stop,
        third_base_id: defense.third_base,
        left_field_id: defense.left_field,
        center_field_id: defense.center_field,
        right_field_id: defense.right_field,
        hp_umpire_id: context.setup.hp_umpire_id,
        pitcher: plate_appearance.pitcher_id,
        pitcher_team_id: fielding_team(context.setup, half).0,
        pitcher_parent_team_id: fielding_team(context.setup, half).1,
        pitcher_throws: plate_appearance.pitcher_pitch_hand_code,
        pitcher_throws_desc: plate_appearance.pitcher_pitch_hand_desc,
        pitcher_sp_rp: usage.role,
        pitcher_num_pitch: (usage.num_pitch + 1) as u16,
        pitcher_num_plate_appearance: usage.num_plate_appearance,
        batter: plate_appearance.batter_id,
        batter_team_id: batting_team(context.setup, half).0,
        batter_parent_team_id: batting_team(context.setup, half).1,
        batter_bats: plate_appearance.batter_bat_side_code,
        batter_bats_desc: plate_appearance.batter_bat_side_desc,
        batter_pos: defense.spec_position_of(plate_appearance.batter_id),
        batter_batting_order: spec_batting_order(
            batting_roster(context, half),
            plate_appearance.batter_id,
        ),
        pitch_num_plate_appearance: (counters.pitch_num_plate_appearance + 1) as u8,
        pitch_num_inning: (counters.pitch_num_inning + 1) as u8,
        pitch_num_game: (counters.pitch_num_game + 1) as u16,
        preceded_by_pickoff: counters.preceded_by_pickoff,
        double_play_opportunity: spec_double_play_opportunity(start.outs, start.base_value),
        balls_start: start.balls,
        balls_end: end.balls,
        strikes_start: start.strikes,
        strikes_end: end.strikes,
        outs_start: start.outs,
        outs_end: end.outs,
        base_value_start: start.base_value,
        base_value_end: end.base_value,
        runs_scored: runs,
        re_288_batter_responsible: counters.batter_responsible,
        re_288_start: worth.start,
        re_288_end: worth.end,
        re_288_val: worth.value,
        in_play: if in_play {
            1
        } else {
            0
        },
        swing: outcome.spec_swing(),
        swing_and_miss: outcome.spec_swing_and_miss(),
        foul: outcome.spec_foul(),
        bunt: pitch_bunt(event.hit_data, in_play, event.description),
        pitch_type_code: spec_pitch_type_of(event.pitch_type).0,
        pitch_type_desc: spec_pitch_type_of(event.pitch_type).1,
        plate_appearance_result: plate_appearance.plate_appearance_result,
        in_play_result: if in_play {
            Some(result)
        } else {
            None
        },
        in_play_1b: if in_play {
            Some(spec_indicator(result, Event::Single))
        } else {
            None
        },
        in_play_2b: if in_play {
            Some(spec_indicator(result, Event::Double))
        } else {
            None
        },
        in_play_3b: if in_play {
            Some(spec_indicator(result, Event::Triple))
        } else {
            None
        },
        in_play_hr: if in_play {
            Some(spec_indicator(result, Event::HomeRun))
        } else {
            None
        },
        strikeout: if end.strikes == 3 {
            1
        } else {
            0
        },
        walk: if end.balls == 4 {
            1
        } else {
            0
        },
        fielded_by_id: fielder.0,
        fielded_by_pos: fielder.1,
        hit_data_trajectory: pitch_trajectory(
            event.hit_data,
            in_play,
            plate_appearance.plate_appearance_result_description,
        ),
        hit_data_contact_quality: spec_contact_quality(event.hit_data),
        hit_data_located: spec_located(event.hit_data),
        trajectory_model_applies: (event.pitch_data->0).spec_is_complete(),
        sport_id: context.setup.sport_id,
        game_pk: context.setup.game_pk,
        game_year: context.setup.game_year,
        game_month: context.setup.game_month,
        venue_id: context.setup.venue_id,
    }
}

/// The running state after a pitch: the pitch counters stand where the
/// record has them, what the pitch ended with is what the next pitch starts
/// with, and a pickoff attempt before the pitch is spent.
pub open spec fn after_pitch(counters: Counters, half: HalfInning, record: Pitch) -> Counters {
    let usage = counters.spec_pitching(half);
    Counters {
        pitch_num_game: record.pitch_num_game,
        pitch_num_plate_appearance: record.pitch_num_plate_appearance,
        pitch_num_inning: record.pitch_num_inning,
        preceded_by_pickoff: false,
        balls_start: record.balls_end,
        strikes_start: record.strikes_end,
        outs_start: record.outs_end,
        base_value_start: record.base_value_end,
        ..counters.spec_with_pitching(
            half,
            PitcherUsage { num_pitch: record.pitcher_num_pitch, ..usage },
        )
    }
}


/// The progress before the first plate appearance of a game.
pub open spec fn kickoff(home_defense: Lineup, away_defense: Lineup) -> Progress {
    Progress {
        counters: Counters::spec_initial(home_defense, away_defense),
        runners: Seq::empty(),
        pitches: Seq::empty(),
    }
}

/// The progress on entering a plate appearance. See `Counters::spec_enter`
/// for the running state. Where the half-inning differs from that of the
/// plate appearance before, nobody is on base any more. Fails as well where
/// the number of the plate appearance does not fit its record field.
pub open spec fn enter_plate_appearance(progress: Progress, plate_appearance: PlateAppearance) -> Result<
    Progress,
    ReconstructError,
> {
    if plate_appearance.plate_appearance_index == u8::MAX {
        Err(ReconstructError::CounterOverflow)
    } else {
        match progress.counters.spec_enter(plate_appearance.half_inning) {
            Err(e) => Err(e),
            Ok(counters) => Ok(
                Progress {
                    counters,
                    runners: if plate_appearance.half_inning
                        != progress.counters.previous_half_inning {
                        Seq::empty()
                    } else {
                        progress.runners
                    },
                    pitches: progress.pitches,
                },
            ),
        }
    }
}

/// The progress after a plate appearance that has no events: the runner
/// movements that it lists under `UNASSIGNED` are tracked, and the state
/// change is not put down to the batter.
pub open spec fn settle_unassigned(progress: Progress, plate_appearance: PlateAppearance) -> Progress {
    Progress {
        counters: Counters { batter_responsible: false, ..progress.counters },
        runners: track(progress.runners, plate_appearance.runners@, UNASSIGNED),
        pitches: progress.pitches,
    }
}

/// What an action does to the running state and to the tracked runners.
/// A defensive substitution or switch puts the entering player on the
/// position taken, in the assignment of the team in the field, and fails
/// where the event names no player. An offensive substitution on a base
/// takes the runner on that base out of tracking. A pitching substitution
/// makes the pitcher of the team in the field a reliever who has thrown no
/// pitch and faced no batter. After any other action the state change of
/// the plate appearance is not put down to the batter.
pub open spec fn act(
    counters: Counters,
    runners: Seq<RunnerMovement>,
    half: HalfInning,
    event: PlayEvent,
) -> Result<(Counters, Seq<RunnerMovement>), ReconstructError> {
    match event.event {
        Some(Event::DefensiveSubstitution) | Some(Event::DefensiveSwitch) => match event.player_id {
            Some(player) => Ok(
                (
                    counters.spec_with_fielding(
                        half,
                        counters.spec_fielding(half).spec_assign(
                            spec_position_taken(event.position),
                            player,
                        ),
                    ),
                    runners,
                ),
            ),
            None => Err(ReconstructError::MissingField),
        },
        Some(Event::OffensiveSubstitution) => match event.base {
            Some(base) => Ok((counters, without_base(runners, base.spec_occupancy()))),
            None => Ok((counters, runners)),
        },
        Some(Event::PitchingSubstitution) => Ok(
            (counters.spec_with_pitching(half, PitcherUsage::spec_reliever()), runners),
        ),
        _ => Ok((Counters { batter_responsible: false, ..counters }, runners)),
    }
}

/// The progress after one event of a plate appearance. Whatever the kind
/// of the event, the runner movements tied to it are tracked first. An
/// action changes the state as `act` says. A pickoff attempt is remembered
/// for the next pitch. A pitch appends its record and moves the state on,
/// and fails where the event lacks a field that a pitch needs, or where a
/// counter would leave its range. Any other event changes nothing more.
pub open spec fn step(
    progress: Progress,
    plate_appearance: PlateAppearance,
    plate_appearance_ordinal: usize,
    event_ordinal: usize,
    context: Context,
) -> Result<Progress, ReconstructError> {
    let event = plate_appearance.play_events@[event_ordinal as int];
    let half = plate_appearance.half_inning;
    let moved = event_movements(plate_appearance.runners@, event.index);
    let runners = track(progress.runners, plate_appearance.runners@, event.index);
    match event.play_event_type {
        PlayEventType::Action => match act(progress.counters, runners, half, event) {
            Ok((counters, runners)) => Ok(Progress { counters, runners, pitches: progress.pitches }),
            Err(e) => Err(e),
        },
        PlayEventType::Pickoff => Ok(
            Progress {
                counters: Counters { preceded_by_pickoff: true, ..progress.counters },
                runners,
                pitches: progress.pitches,
            },
        ),
        PlayEventType::NoPitch | PlayEventType::Stepoff => Ok(
            Progress { counters: progress.counters, runners, pitches: progress.pitches },
        ),
        PlayEventType::Pitch => if !spec_pitch_is_complete(event) {
            Err(ReconstructError::MissingField)
        } else if !pitch_fits(progress.counters, plate_appearance, moved) {
            Err(ReconstructError::CounterOverflow)
        } else {
            let record = pitch_record(
                progress.counters,
                runners,
                moved,
                plate_appearance,
                plate_appearance_ordinal,
                event_ordinal,
                context,
            );
            Ok(
                Progress {
                    counters: after_pitch(progress.counters, half, record),
                    runners,
                    pitches: progress.pitches.push(record),
                },
            )
        },
    }
}

/// The progress after the first `count` events of a plate appearance that
/// has been entered.
pub open spec fn run_events(
    progress: Progress,
    plate_appearance: PlateAppearance,
    plate_appearance_ordinal: usize,
    context: Context,
    count: nat,
) -> Result<Progress, ReconstructError>
    decreases count,
{
    if count == 0 {
        Ok(progress)
    } else {
        match run_events(
            progress,
            plate_appearance,
            plate_appearance_ordinal,
            context,
            (count - 1) as nat,
        ) {
            Ok(before) => step(
                before,
                plate_appearance,
                plate_appearance_ordinal,
                (count - 1) as usize,
                context,
            ),
            Err(e) => Err(e),
        }
    }
}

/// The progress after a whole plate appearance: it is entered, and its
/// events are gone through in order, or, where it has none, its unassigned
/// runner movements are settled.
pub open spec fn run_plate_appearance(
    progress: Progress,
    plate_appearance: PlateAppearance,
    plate_appearance_ordinal: usize,
    context: Context,
) -> Result<Progress, ReconstructError> {
    match enter_plate_appearance(progress, plate_appearance) {
        Err(e) => Err(e),
        Ok(entered) => if plate_appearance.play_events@.len() == 0 {
            Ok(settle_unassigned(entered, plate_appearance))
        } else {
            run_events(
                entered,
                plate_appearance,
                plate_appearance_ordinal,
                context,
                plate_appearance.play_events@.len(),
            )
        },
    }
}

/// The progress after the first `count` plate appearances of a game.
pub open spec fn run_game(
    progress: Progress,
    plays: Seq<PlateAppearance>,
    context: Context,
    count: nat,
) -> Result<Progress, ReconstructError>
    decreases count,
{
    if count == 0 {
        Ok(progress)
    } else {
        match run_game(progress, plays, context, (count - 1) as nat) {
            Ok(before) => run_plate_appearance(
                before,
                plays[count - 1],
                (count - 1) as usize,
                context,
            ),
            Err(e) => Err(e),
        }
    }
}

/// A run that has failed stays failed.
pub(crate) proof fn lemma_run_events_failed(
    progress: Progress,
    plate_appearance: PlateAppearance,
    plate_appearance_ordinal: usize,
    context: Context,
    failed: nat,
    count: nat,
)
    requires
        failed <= count,
        run_events(progress, plate_appearance, plate_appearance_ordinal, context, failed) is Err,
    ensures
        run_events(progress, plate_appearance, plate_appearance_ordinal, context, count)
            == run_events(progress, plate_appearance, plate_appearance_ordinal, context, failed),
    decreases count,
{
    if failed < count {
        lemma_run_events_failed(
            progress,
            plate_appearance,
            plate_appearance_ordinal,
            context,
            failed,
            (count - 1) as nat,
        );
    }
}

/// A game that has failed stays failed.
pub(crate) proof fn lemma_run_game_failed(
    progress: Progress,
    plays: Seq<PlateAppearance>,
    context: Context,
    failed: nat,
    count: nat,
)
    requires
        failed <= count,
        run_game(progress, plays, context, failed) is Err,
    ensures
        run_game(progress, plays, context, count) == run_game(progress, plays, context, failed),
    decreases count,
{
    if failed < count {
        lemma_run_game_failed(progress, plays, context, failed, (count - 1) as nat);
    }
}


/// A reconstruction under way.
pub struct Engine {
    pub counters: Counters,
    pub runners: RunnerState,
    pub pitches: Vec<Pitch>,
}

impl View for Engine {
    type V = Progress;

    open spec fn view(&self) -> Progress {
        Progress { counters: self.counters, runners: self.runners@, pitches: self.pitches@ }
    }
}

impl Engine {
    /// A reconstruction that has not begun, with each team's starting
    /// position assignment.
    pub fn new(home_defense: Lineup, away_defense: Lineup) -> (engine: Engine)
        ensures
            engine@ == kickoff(home_defense, away_defense),
    {
        Engine {
            counters: Counters::initial(home_defense, away_defense),
            runners: RunnerState::new(),
            pitches: Vec::new(),
        }
    }

    /// Enters a plate appearance.
    pub fn enter(&mut self, plate_appearance: &PlateAppearance) -> (entered: Result<
        (),
        ReconstructError,
    >)
        ensures
            (match entered {
                Ok(_) => enter_plate_appearance(old(self)@, *plate_appearance) == Ok::<
                    Progress,
                    ReconstructError,
                >(final(self)@),
                Err(e) => enter_plate_appearance(old(self)@, *plate_appearance) == Err::<
                    Progress,
                    ReconstructError,
                >(e),
            }),
    {
        if plate_appearance.plate_appearance_index == u8::MAX {
            return Err(ReconstructError::CounterOverflow);
        }
        let changed: bool = plate_appearance.half_inning != self.counters.previous_half_inning;
        match self.counters.enter(plate_appearance.half_inning) {
            Err(e) => Err(e),
            Ok(counters) => {
                self.counters = counters;
                if changed {
                    self.runners.clear();
                }
                Ok(())
            },
        }
    }

    /// Settles the unassigned runner movements of a plate appearance that
    /// has no events.
    pub fn settle(&mut self, plate_appearance: &PlateAppearance)
        ensures
            final(self)@ == settle_unassigned(old(self)@, *plate_appearance),
    {
        let _ = self.runners.apply(&plate_appearance.runners, UNASSIGNED);
        self.counters.batter_responsible = false;
    }

    /// The record of the pitch that the given event is, from the state
    /// before the pitch and the runners after its movements.
    fn record(
        &self,
        moved: &Vec<RunnerMovement>,
        plate_appearance: &PlateAppearance,
        plate_appearance_ordinal: usize,
        event_ordinal: usize,
        context: &Context,
    ) -> (made: Result<Pitch, ReconstructError>)
        requires
            event_ordinal < plate_appearance.play_events@.len(),
        ensures
            ({
                let event = plate_appearance.play_events@[event_ordinal as int];
                match made {
                    Ok(record) => spec_pitch_is_complete(event) && pitch_fits(
                        self.counters,
                        *plate_appearance,
                        moved@,
                    ) && record == pitch_record(
                        self.counters,
                        self.runners@,
                        moved@,
                        *plate_appearance,
                        plate_appearance_ordinal,
                        event_ordinal,
                        *context,
                    ),
                    Err(e) => if !spec_pitch_is_complete(event) {
                        e == ReconstructError::MissingField
                    } else {
                        e == ReconstructError::CounterOverflow && !pitch_fits(
                            self.counters,
                            *plate_appearance,
                            moved@,
                        )
                    },
                }
            }),
    {
        let event: &PlayEvent = &plate_appearance.play_events[event_ordinal];
        let half: HalfInning = plate_appearance.half_inning;
        let counters: Counters = self.counters;
        let (in_play, code, balls_end, strikes_end, pitch_data) = match (
            event.is_in_play,
            event.code,
            event.balls,
            event.strikes,
            event.pitch_data,
        ) {
            (Some(in_play), Some(code), Some(balls), Some(strikes), Some(pitch_data)) => (
                in_play,
                code,
                balls,
                strikes,
                pitch_data,
            ),
            _ => { return Err(ReconstructError::MissingField); },
        };
        let usage: PitcherUsage = counters.pitching(half);
        let outs: u16 = outs_on(moved);
        let runs: u16 = runs_on(moved);
        if plate_appearance.plate_appearance_index == u8::MAX || counters.pitch_num_game
            == u16::MAX || counters.pitch_num_plate_appearance == u8::MAX
            || counters.pitch_num_inning == u8::MAX || usage.num_pitch == u16::MAX
            || counters.outs_start as u16 + outs > 255 || runs > 255 {
            return Err(ReconstructError::CounterOverflow);
        }
        let defense: Lineup = counters.fielding(half);
        let outcome: PitchOutcome = code.outcome();
        let result: Event = result_in_play(plate_appearance.plate_appearance_result);
        let start = CountState {
            balls: counters.balls_start,
            strikes: counters.strikes_start,
            base_value: clamp_base(counters.base_value_start),
            outs: counters.outs_start,
        };
        let end = CountState {
            balls: balls_end,
            strikes: strikes_end,
            base_value: self.runners.base_value(),
            outs: (counters.outs_start as u16 + outs) as u8,
        };
        let runs_scored: u8 = runs as u8;
        let worth: Valuation = value_pitch(context.table, start, end, runs_scored);
        let fielder: (Option<u32>, Option<Pos>) = fielder_on(&plate_appearance.runners, event.index);
        let (batter_team_id, batter_parent_team_id, pitcher_team_id, pitcher_parent_team_id) =
            match half {
            HalfInning::Top => (
                context.setup.away_team_id,
                context.setup.away_parent_team_id,
                context.setup.home_team_id,
                context.setup.home_parent_team_id,
            ),
            HalfInning::Bottom => (
                context.setup.home_team_id,
                context.setup.home_parent_team_id,
                context.setup.away_team_id,
                context.setup.away_parent_team_id,
            ),
        };
        let roster: &Vec<RosterEntry> = match half {
            HalfInning::Top => context.away_players,
            HalfInning::Bottom => context.home_players,
        };
        let pitch_type: (Option<PitchTypeCode>, Option<PitchTypeDescription>) = pitch_type_of(
            event.pitch_type,
        );
        let tagged: Option<Trajectory> = tagged_trajectory(event.hit_data);
        let hit_data_trajectory: Option<Trajectory> = match tagged {
            Some(trajectory) => Some(trajectory),
            None => if in_play {
                Some(impute_trajectory(&plate_appearance.plate_appearance_result_description))
            } else {
                None
            },
        };
        let bunt: Option<bool> = match tagged {
            Some(trajectory) => Some(is_bunt(trajectory)),
            None => if in_play {
                Some(is_bunt_description(&event.description))
            } else {
                None
            },
        };
        Ok(
            Pitch {
                plate_appearance_ordinal,
                event_ordinal,
                half_inning: half,
                num_plate_appearance: plate_appearance.plate_appearance_index + 1,
                num_inning: plate_appearance.inning_num,
                catcher_id: defense.catcher,
                first_base_id: defense.first_base,
                second_base_id: defense.second_base,
                short_stop_id: defense.short_stop,
                third_base_id: defense.third_base,
                left_field_id: defense.left_field,
                center_field_id: defense.center_field,
                right_field_id: defense.right_field,
                hp_umpire_id: context.setup.hp_umpire_id,
                pitcher: plate_appearance.pitcher_id,
                pitcher_team_id,
                pitcher_parent_team_id,
                pitcher_throws: plate_appearance.pitcher_pitch_hand_code,
                pitcher_throws_desc: plate_appearance.pitcher_pitch_hand_desc,
                pitcher_sp_rp: usage.role,
                pitcher_num_pitch: usage.num_pitch + 1,
                pitcher_num_plate_appearance: usage.num_plate_appearance,
                batter: plate_appearance.batter_id,
                batter_team_id,
                batter_parent_team_id,
                batter_bats: plate_appearance.batter_bat_side_code,
                batter_bats_desc: plate_appearance.batter_bat_side_desc,
                batter_pos: defense.position_of(plate_appearance.batter_id),
                batter_batting_order: batting_order(roster, plate_appearance.batter_id),
                pitch_num_plate_appearance: counters.pitch_num_plate_appearance + 1,
                pitch_num_inning: counters.pitch_num_inning + 1,
                pitch_num_game: counters.pitch_num_game + 1,
                preceded_by_pickoff: counters.preceded_by_pickoff,
                double_play_opportunity: double_play_opportunity(start.outs, start.base_value),
                balls_start: start.balls,
                balls_end: end.balls,
                strikes_start: start.strikes,
                strikes_end: end.strikes,
                outs_start: start.outs,
                outs_end: end.outs,
                base_value_start: start.base_value,
                base_value_end: end.base_value,
                runs_scored,
                re_288_batter_responsible: counters.batter_responsible,
                re_288_start: worth.start,
                re_288_end: worth.end,
                re_288_val: worth.value,
                in_play: if in_play {
                    1
                } else {
                    0
                },
                swing: outcome.swing(),
                swing_and_miss: outcome.swing_and_miss(),
                foul: outcome.foul(),
                bunt,
                pitch_type_code: pitch_type.0,
                pitch_type_desc: pitch_type.1,
                plate_appearance_result: plate_appearance.plate_appearance_result,
                in_play_result: if in_play {
                    Some(result)
                } else {
                    None
                },
                in_play_1b: if in_play {
                    Some(indicator(result, Event::Single))
                } else {
                    None
                },
                in_play_2b: if in_play {
                    Some(indicator(result, Event::Double))
                } else {
                    None
                },
                in_play_3b: if in_play {
                    Some(indicator(result, Event::Triple))
                } else {
                    None
                },
                in_play_hr: if in_play {
                    Some(indicator(result, Event::HomeRun))
                } else {
                    None
                },
                strikeout: if strikes_end == 3 {
                    1
                } else {
                    0
                },
                walk: if balls_end == 4 {
                    1
                } else {
                    0
                },
                fielded_by_id: fielder.0,
                fielded_by_pos: fielder.1,
                hit_data_trajectory,
                hit_data_contact_quality: contact_quality(event.hit_data),
                hit_data_located: located(event.hit_data),
                trajectory_model_applies: pitch_data.is_complete(),
                sport_id: context.setup.sport_id,
                game_pk: context.setup.game_pk,
                game_year: context.setup.game_year,
                game_month: context.setup.game_month,
                venue_id: context.setup.venue_id,
            },
        )
    }

    /// Goes through one event of a plate appearance that has been entered.
    pub fn step(
        &mut self,
        plate_appearance: &PlateAppearance,
        plate_appearance_ordinal: usize,
        event_ordinal: usize,
        context: &Context,
    ) -> (stepped: Result<(), ReconstructError>)
        requires
            event_ordinal < plate_appearance.play_events@.len(),
        ensures
            (match stepped {
                Ok(_) => step(
                    old(self)@,
                    *plate_appearance,
                    plate_appearance_ordinal,
                    event_ordinal,
                    *context,
                ) == Ok::<Progress, ReconstructError>(final(self)@),
                Err(e) => step(
                    old(self)@,
                    *plate_appearance,
                    plate_appearance_ordinal,
                    event_ordinal,
                    *context,
                ) == Err::<Progress, ReconstructError>(e),
            }),
    {
        let event: &PlayEvent = &plate_appearance.play_events[event_ordinal];
        let half: HalfInning = plate_appearance.half_inning;
        let moved: Vec<RunnerMovement> = self.runners.apply(&plate_appearance.runners, event.index);
        match event.play_event_type {
            PlayEventType::Action => match event.event {
                Some(Event::DefensiveSubstitution) | Some(Event::DefensiveSwitch) => {
                    match event.player_id {
                        Some(player) => {
                            let lineup: Lineup = self.counters.fielding(half).assign(
                                position_taken(event.position),
                                player,
                            );
                            self.counters = self.counters.with_fielding(half, lineup);
                            Ok(())
                        },
                        None => Err(ReconstructError::MissingField),
                    }
                },
                Some(Event::OffensiveSubstitution) => {
                    match event.base {
                        Some(base) => { self.runners.remove_base(base); },
                        None => {},
                    }
                    Ok(())
                },
                Some(Event::PitchingSubstitution) => {
                    self.counters = self.counters.with_pitching(half, PitcherUsage::reliever());
                    Ok(())
                },
                _ => {
                    self.counters.batter_responsible = false;
                    Ok(())
                },
            },
            PlayEventType::Pickoff => {
                self.counters.preceded_by_pickoff = true;
                Ok(())
            },
            PlayEventType::NoPitch | PlayEventType::Stepoff => Ok(()),
            PlayEventType::Pitch => {
                match self.record(
                    &moved,
                    plate_appearance,
                    plate_appearance_ordinal,
                    event_ordinal,
                    context,
                ) {
                    Err(e) => Err(e),
                    Ok(record) => {
                        let usage: PitcherUsage = self.counters.pitching(half);
                        let mut counters: Counters = self.counters.with_pitching(
                            half,
                            PitcherUsage {
                                role: usage.role,
                                num_pitch: record.pitcher_num_pitch,
                                num_plate_appearance: usage.num_plate_appearance,
                            },
                        );
                        counters.pitch_num_game = record.pitch_num_game;
                        counters.pitch_num_plate_appearance = record.pitch_num_plate_appearance;
                        counters.pitch_num_inning = record.pitch_num_inning;
                        counters.preceded_by_pickoff = false;
                        counters.balls_start = record.balls_end;
                        counters.strikes_start = record.strikes_end;
                        counters.outs_start = record.outs_end;
                        counters.base_value_start = record.base_value_end;
                        self.counters = counters;
                        self.pitches.push(record);
                        Ok(())
                    },
                }
            },
        }
    }

    /// Goes through a whole plate appearance.
    pub fn play(
        &mut self,
        plate_appearance: &PlateAppearance,
        plate_appearance_ordinal: usize,
        context: &Context,
    ) -> (played: Result<(), ReconstructError>)
        ensures
            (match played {
                Ok(_) => run_plate_appearance(
                    old(self)@,
                    *plate_appearance,
                    plate_appearance_ordinal,
                    *context,
                ) == Ok::<Progress, ReconstructError>(final(self)@),
                Err(e) => run_plate_appearance(
                    old(self)@,
                    *plate_appearance,
                    plate_appearance_ordinal,
                    *context,
                ) == Err::<Progress, ReconstructError>(e),
            }),
    {
        match self.enter(plate_appearance) {
            Err(e) => { return Err(e); },
            Ok(_) => {},
        }
        let ghost entered = self@;
        let count: usize = plate_appearance.play_events.len();
        if count == 0 {
            self.settle(plate_appearance);
            return Ok(());
        }
        let mut i: usize = 0;
        while i < count
            invariant
                i <= count,
                0 < count == plate_appearance.play_events@.len(),
                enter_plate_appearance(old(self)@, *plate_appearance) == Ok::<
                    Progress,
                    ReconstructError,
                >(entered),
                run_events(
                    entered,
                    *plate_appearance,
                    plate_appearance_ordinal,
                    *context,
                    i as nat,
                ) == Ok::<Progress, ReconstructError>(self@),
            decreases count - i,
        {
            match self.step(plate_appearance, plate_appearance_ordinal, i, context) {
                Err(e) => {
                    proof {
                        assert(run_events(
                            entered,
                            *plate_appearance,
                            plate_appearance_ordinal,
                            *context,
                            (i + 1) as nat,
                        ) == Err::<Progress, ReconstructError>(e));
                        lemma_run_events_failed(
                            entered,
                            *plate_appearance,
                            plate_appearance_ordinal,
                            *context,
                            (i + 1) as nat,
                            count as nat,
                        );
                    }
                    return Err(e);
                },
                Ok(_) => {},
            }
            i = i + 1;
        }
        Ok(())
    }
}

} // verus!
