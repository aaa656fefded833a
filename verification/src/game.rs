//! The pitch record, the metadata that a reconstruction draws on, and the
//! reconstruction of a whole game.

use std::collections::HashMap;
use vstd::prelude::*;
use crate::boxscore::{BoxScore, Pos};
use crate::engine::{kickoff, lemma_run_game_failed, run_game, Context, Engine, Progress};
use crate::play_by_play::{
    Event, HalfInning, Hardness, PitchTypeCode, PitchTypeDescription, PlateAppearance, SideCode,
    SideDescription, Trajectory,
};
use crate::players::{copy_text, spec_team_key, team_key, Date, Player, Team};
use crate::run_expectancy::RE288;

verus! {

/// Whether a team's pitcher is the one who started the game or one who came
/// in later.
#[derive(Clone, Copy, Debug, PartialEq, Eq, Structural)]
pub enum PitcherSPRP {
    SP,
    RP,
}

/// Why a game could not be reconstructed.
#[derive(Clone, Copy, Debug, PartialEq, Eq, Structural)]
pub enum ReconstructError {
    /// The game has a boxscore, but the schedule has no entry for it.
    MissingSchedule,
    /// An event lacks a field that its kind requires: a pitch its in-play
    /// flag, result code, count or pitch data, a defensive substitution or
    /// switch its player.
    MissingField,
    /// A counter left the range of the record field that holds it.
    CounterOverflow,
}

/// The schedule's entry for a game.
#[derive(Clone, Copy, Debug, PartialEq, Eq)]
pub struct GameMetaData {
    pub game_pk: u32,
    pub game_date: Date,
    pub game_venue_id: u32,
    pub sport_id: u32,
}

/// The lookup tables that a reconstruction draws on, each keyed as its
/// source keys it: schedule and boxscore by game, teams by team and season
/// (see `team_key`), people by person.
pub struct MetaData {
    pub schedule: HashMap<u32, GameMetaData>,
    pub boxscore: HashMap<u32, BoxScore>,
    pub teams: HashMap<u64, Team>,
    pub players: HashMap<u32, Player>,
    pub re_288_default: Vec<RE288>,
}

/// What is fixed for the whole of one game.
#[derive(Clone, Copy, Debug, PartialEq, Eq)]
pub struct Setup {
    pub game_pk: u32,
    pub game_year: u16,
    pub game_month: u8,
    pub sport_id: u32,
    pub venue_id: u32,
    pub hp_umpire_id: Option<u32>,
    pub home_team_id: u32,
    pub away_team_id: u32,
    pub home_parent_team_id: u32,
    pub away_parent_team_id: u32,
}

/// One pitch, with the state of the game around it. A record stands for
/// itself: it names the plate appearance and the event that it came from by
/// their positions in the input, so that whatever else the input says of
/// them can be joined to it.
#[derive(Clone, Copy, Debug, PartialEq, Eq)]
pub struct Pitch {
    /// Position of the plate appearance in the input.
    pub plate_appearance_ordinal: usize,
    /// Position of the pitch event among the events of its plate appearance.
    pub event_ordinal: usize,

    pub half_inning: HalfInning,
    pub num_plate_appearance: u8,
    pub num_inning: u8,

    // The defense on the field for the pitch.
    pub catcher_id: Option<u32>,
    pub first_base_id: Option<u32>,
    pub second_base_id: Option<u32>,
    pub short_stop_id: Option<u32>,
    pub third_base_id: Option<u32>,
    pub left_field_id: Option<u32>,
    pub center_field_id: Option<u32>,
    pub right_field_id: Option<u32>,

    pub hp_umpire_id: Option<u32>,

    pub pitcher: u32,
    pub pitcher_team_id: u32,
    pub pitcher_parent_team_id: u32,
    pub pitcher_throws: SideCode,
    pub pitcher_throws_desc: Option<SideDescription>,
    pub pitcher_sp_rp: PitcherSPRP,
    /// Pitches thrown by the team's current pitcher, this one counted.
    pub pitcher_num_pitch: u16,
    /// Plate appearances faced by the team's current pitcher.
    pub pitcher_num_plate_appearance: u16,

    pub batter: u32,
    pub batter_team_id: u32,
    pub batter_parent_team_id: u32,
    pub batter_bats: SideCode,
    pub batter_bats_desc: Option<SideDescription>,
    pub batter_pos: Pos,
    pub batter_batting_order: Option<u16>,

    pub pitch_num_plate_appearance: u8,
    pub pitch_num_inning: u8,
    pub pitch_num_game: u16,

    /// Whether a pickoff attempt came between the previous pitch and this one.
    pub preceded_by_pickoff: bool,
    /// Whether a ground ball could have been turned into a double play.
    pub double_play_opportunity: bool,

    pub balls_start: u8,
    pub balls_end: u8,
    pub strikes_start: u8,
    pub strikes_end: u8,
    pub outs_start: u8,
    pub outs_end: u8,
    pub base_value_start: u8,
    pub base_value_end: u8,
    pub runs_scored: u8,
    /// Whether the change of state on the pitch is the batter's doing.
    pub re_288_batter_responsible: bool,
    /// Run expectancy before the pitch, in thousandths of a run.
    pub re_288_start: i32,
    /// Run expectancy after the pitch, in thousandths of a run.
    pub re_288_end: i32,
    /// What the pitch was worth, in thousandths of a run.
    pub re_288_val: i64,

    pub in_play: u8,
    pub swing: u8,
    pub swing_and_miss: Option<u8>,
    pub foul: u8,
    pub bunt: Option<bool>,
    pub pitch_type_code: Option<PitchTypeCode>,
    pub pitch_type_desc: Option<PitchTypeDescription>,

    pub plate_appearance_result: Option<Event>,
    pub in_play_result: Option<Event>,
    pub in_play_1b: Option<u8>,
    pub in_play_2b: Option<u8>,
    pub in_play_3b: Option<u8>,
    pub in_play_hr: Option<u8>,
    pub strikeout: u8,
    pub walk: u8,

    pub fielded_by_id: Option<u32>,
    pub fielded_by_pos: Option<Pos>,

    pub hit_data_trajectory: Option<Trajectory>,
    pub hit_data_contact_quality: Option<Hardness>,
    /// Whether both landing coordinates of a batted ball are known, so that
    /// its spray angle and distance can be worked out.
    pub hit_data_located: bool,
    /// Whether the pitch carries every measurement that the trajectory
    /// physics model needs.
    pub trajectory_model_applies: bool,

    pub sport_id: u32,
    pub game_pk: u32,
    pub game_year: u16,
    pub game_month: u8,
    pub venue_id: u32,
}

/// The id under which the directory lists a team: the id of its entry for
/// the season, and zero where it has no entry.
pub open spec fn resolved_team_id(teams: Map<u64, Team>, team_id: u32, year: u16) -> u32 {
    if teams.contains_key(spec_team_key(team_id, year)) {
        teams[spec_team_key(team_id, year)].id
    } else {
        0
    }
}

/// Looks a team's id up in the directory.
pub fn resolve_team_id(teams: &HashMap<u64, Team>, team_id: u32, year: u16) -> (id: u32)
    ensures
        id == resolved_team_id(teams@, team_id, year),
{
    let key: u64 = team_key(team_id, year);
    match teams.get(&key) {
        Some(team) => team.id,
        None => 0,
    }
}

/// What is fixed for a game, from its schedule entry, its boxscore and the
/// team directory.
pub open spec fn spec_setup(game: GameMetaData, box_score: BoxScore, teams: Map<u64, Team>) -> Setup {
    Setup {
        game_pk: game.game_pk,
        game_year: game.game_date.year,
        game_month: game.game_date.month,
        sport_id: game.sport_id,
        venue_id: game.game_venue_id,
        hp_umpire_id: box_score.hp_umpire_id,
        home_team_id: resolved_team_id(teams, box_score.home_team_id, game.game_date.year),
        away_team_id: resolved_team_id(teams, box_score.away_team_id, game.game_date.year),
        home_parent_team_id: resolved_team_id(
            teams,
            box_score.home_parent_team_id,
            game.game_date.year,
        ),
        away_parent_team_id: resolved_team_id(
            teams,
            box_score.away_parent_team_id,
            game.game_date.year,
        ),
    }
}

/// Gathers what is fixed for a game.
pub fn setup(game: &GameMetaData, box_score: &BoxScore, teams: &HashMap<u64, Team>) -> (fixed: Setup)
    ensures
        fixed == spec_setup(*game, *box_score, teams@),
{
    let year: u16 = game.game_date.year;
    Setup {
        game_pk: game.game_pk,
        game_year: year,
        game_month: game.game_date.month,
        sport_id: game.sport_id,
        venue_id: game.game_venue_id,
        hp_umpire_id: box_score.hp_umpire_id,
        home_team_id: resolve_team_id(teams, box_score.home_team_id, year),
        away_team_id: resolve_team_id(teams, box_score.away_team_id, year),
        home_parent_team_id: resolve_team_id(teams, box_score.home_parent_team_id, year),
        away_parent_team_id: resolve_team_id(teams, box_score.away_parent_team_id, year),
    }
}

/// The name under which the directory lists a person, where an id is given
/// and the directory has an entry for it.
pub fn get_name(id: Option<u32>, player_map: &HashMap<u32, Player>) -> (name: Option<String>)
    ensures
        (match id {
            Some(id) => if player_map@.contains_key(id) {
                name == Some(player_map@[id].name)
            } else {
                name is None
            },
            None => name is None,
        }),
{
    match id {
        Some(id) => {
            let player = player_map.get(&id);
            match player {
                Some(player) => Some(player.name.clone()),
                None => None,
            }
        },
        None => None,
    }
}


/// What the directory says of an umpire: name, date of birth, height in
/// inches and height as written, where an id is given and the directory has
/// an entry for it, and nothing otherwise.
pub fn get_ump(id: Option<u32>, ump_map: &HashMap<u32, Player>) -> (details: (
    Option<String>,
    Option<Date>,
    Option<u8>,
    Option<String>,
))
    ensures
        (match id {
            Some(id) => if ump_map@.contains_key(id) {
                details == (
                    Some(ump_map@[id].name),
                    ump_map@[id].birth_date,
                    Some(ump_map@[id].height_in),
                    ump_map@[id].height_str,
                )
            } else {
                details == (None::<String>, None::<Date>, None::<u8>, None::<String>)
            },
            None => details == (None::<String>, None::<Date>, None::<u8>, None::<String>),
        }),
{
    match id {
        Some(ump_id) => {
            let ump = ump_map.get(&ump_id);
            match ump {
                Some(ump) => (
                    Some(ump.name.clone()),
                    ump.birth_date,
                    Some(ump.height_in),
                    copy_text(&ump.height_str),
                ),
                None => (None, None, None, None),
            }
        },
        None => (None, None, None, None),
    }
}

/// What the directory says of a coach: the id as given, and the name, the
/// date of birth and whether the coach played in the major leagues, where an
/// id is given and the directory has an entry for it.
pub fn get_coach(id: Option<u32>, coach_map: &HashMap<u32, Player>) -> (details: (
    Option<u32>,
    Option<String>,
    Option<Date>,
    Option<bool>,
))
    ensures
        details.0 == id,
        (match id {
            Some(id) => if coach_map@.contains_key(id) {
                &&& details.1 == Some(coach_map@[id].name)
                &&& details.2 == coach_map@[id].birth_date
                &&& details.3 == Some(coach_map@[id].mlb_debut_date is Some)
            } else {
                details.1 is None && details.2 is None && details.3 is None
            },
            None => details.1 is None && details.2 is None && details.3 is None,
        }),
{
    match id {
        Some(coach_id) => {
            let coach = coach_map.get(&coach_id);
            match coach {
                Some(coach) => (
                    id,
                    Some(coach.name.clone()),
                    coach.birth_date,
                    Some(coach.mlb_debut_date.is_some()),
                ),
                None => (id, None, None, None),
            }
        },
        None => (id, None, None, None),
    }
}

/// What is fixed while a game with the given boxscore is played through.
pub open spec fn context_of<'a>(
    game: GameMetaData,
    box_score: &'a BoxScore,
    meta: &'a MetaData,
) -> Context<'a> {
    Context {
        setup: spec_setup(game, *box_score, meta.teams@),
        home_players: &box_score.home_players,
        away_players: &box_score.away_players,
        table: &meta.re_288_default,
    }
}

/// The pitch records of a game, in the order of its plate appearances and,
/// within each, of its events.
///
/// A game without a boxscore has no records, whatever else is known of it.
/// A game with a boxscore that the schedule does not list cannot be
/// reconstructed. Any other game is played through from the starting
/// position assignments of its boxscore, one plate appearance after the
/// other, and gives the records emitted on the way, unless an event on the
/// way lacks a field that it needs or a counter leaves its range.
pub open spec fn reconstruction(plays: Seq<PlateAppearance>, game_pk: u32, meta: &MetaData) -> Result<
    Seq<Pitch>,
    ReconstructError,
> {
    if !meta.boxscore@.contains_key(game_pk) {
        Ok(Seq::empty())
    } else if !meta.schedule@.contains_key(game_pk) {
        Err(ReconstructError::MissingSchedule)
    } else {
        let box_score = meta.boxscore@[game_pk];
        match run_game(
            kickoff(box_score.home_defense, box_score.away_defense),
            plays,
            context_of(meta.schedule@[game_pk], &box_score, meta),
            plays.len(),
        ) {
            Ok(progress) => Ok(progress.pitches),
            Err(e) => Err(e),
        }
    }
}

/// Reconstructs the pitch records of a game from its plate appearances.
pub fn reconstruct(plays: &Vec<PlateAppearance>, game_pk: u32, meta: &MetaData) -> (pitches: Result<
    Vec<Pitch>,
    ReconstructError,
>)
    ensures
        (match pitches {
            Ok(records) => reconstruction(plays@, game_pk, meta) == Ok::<
                Seq<Pitch>,
                ReconstructError,
            >(records@),
            Err(e) => reconstruction(plays@, game_pk, meta) == Err::<Seq<Pitch>, ReconstructError>(e),
        }),
{
    let box_score: &BoxScore = match meta.boxscore.get(&game_pk) {
        Some(box_score) => box_score,
        None => { return Ok(Vec::new()); },
    };
    let game: GameMetaData = match meta.schedule.get(&game_pk) {
        Some(game) => *game,
        None => { return Err(ReconstructError::MissingSchedule); },
    };
    let context = Context {
        setup: setup(&game, box_score, &meta.teams),
        home_players: &box_score.home_players,
        away_players: &box_score.away_players,
        table: &meta.re_288_default,
    };
    let ghost start = kickoff(box_score.home_defense, box_score.away_defense);
    let mut engine: Engine = Engine::new(box_score.home_defense, box_score.away_defense);
    let mut i: usize = 0;
    while i < plays.len()
        invariant
            i <= plays.len(),
            meta.schedule@.contains_key(game_pk),
            meta.boxscore@.contains_key(game_pk),
            *box_score == meta.boxscore@[game_pk],
            context == context_of(meta.schedule@[game_pk], box_score, meta),
            start == kickoff(box_score.home_defense, box_score.away_defense),
            run_game(start, plays@, context, i as nat) == Ok::<Progress, ReconstructError>(engine@),
        decreases plays.len() - i,
    {
        match engine.play(&plays[i], i, &context) {
            Err(e) => {
                proof {
                    assert(run_game(start, plays@, context, (i + 1) as nat) == Err::<
                        Progress,
                        ReconstructError,
                    >(e));
                    lemma_run_game_failed(start, plays@, context, (i + 1) as nat, plays@.len());
                }
                return Err(e);
            },
            Ok(_) => {},
        }
        i = i + 1;
    }
    Ok(engine.pitches)
}

} // verus!
