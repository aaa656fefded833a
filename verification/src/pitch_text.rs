//! The texts that go with a pitch record: identifiers, descriptions, and the
//! names of the people and teams that the record names by id.

use std::collections::HashMap;
use vstd::prelude::*;
use crate::boxscore::BoxScore;
use crate::game::{get_name, get_ump, MetaData, Pitch};
use crate::play_by_play::{HalfInning, PlateAppearance, PlayEvent};
use crate::players::{
    copy_text, player_or_default, resolves, spec_team_key, team_key, Date, Player, Team,
};
use crate::text::text_of;

verus! {

/// The texts that go with one pitch record.
#[derive(Clone, Debug, PartialEq, Eq)]
pub struct PitchText {
    pub play_id: String,
    pub start_time: Option<String>,
    pub description: String,
    pub plate_appearance_description: String,
    pub catcher_name: Option<String>,
    pub first_base_name: Option<String>,
    pub second_base_name: Option<String>,
    pub short_stop_name: Option<String>,
    pub third_base_name: Option<String>,
    pub left_field_name: Option<String>,
    pub center_field_name: Option<String>,
    pub right_field_name: Option<String>,
    pub hp_umpire_name: Option<String>,
    pub hp_umpire_birth_date: Option<Date>,
    pub hp_umpire_height: Option<u8>,
    pub hp_umpire_height_str: Option<String>,
    /// What the directory knows of the pitcher.
    pub pitcher: Player,
    pub pitcher_team_name: String,
    pub pitcher_parent_team_name: String,
    /// What the directory knows of the batter.
    pub batter: Player,
    pub batter_team_name: String,
    pub batter_parent_team_name: String,
    pub fielded_by_name: String,
    pub team_name_home: String,
    pub team_name_away: String,
}

/// A text, or the empty text where there is none.
pub fn text_or_empty(text: &Option<String>) -> (copy: String)
    ensures
        copy@ == text_of(*text),
{
    match text {
        Some(text) => text.clone(),
        None => String::new(),
    }
}

/// The name under which the directory lists a person, and the empty text
/// where it has no entry for the person.
pub open spec fn person_name(players: Map<u32, Player>, id: u32) -> Seq<char> {
    if players.contains_key(id) {
        players[id].name@
    } else {
        Seq::empty()
    }
}

/// Looks a person's name up, with the empty text for a person unknown.
pub fn name_or_empty(players: &HashMap<u32, Player>, id: u32) -> (name: String)
    ensures
        name@ == person_name(players@, id),
{
    match players.get(&id) {
        Some(player) => player.name.clone(),
        None => String::new(),
    }
}

/// The name of whoever fielded the ball: the name of the person with the
/// given id, and the empty text where no id is given.
pub open spec fn fielder_name(players: Map<u32, Player>, id: Option<u32>) -> Seq<char> {
    match id {
        Some(id) => person_name(players, id),
        None => Seq::empty(),
    }
}

/// The name under which the directory lists a team in a season, and the
/// empty text where it has no entry for the team.
pub open spec fn team_name(teams: Map<u64, Team>, team_id: u32, year: u16) -> Seq<char> {
    if teams.contains_key(spec_team_key(team_id, year)) {
        teams[spec_team_key(team_id, year)].team_city_name@
    } else {
        Seq::empty()
    }
}

/// Looks a team's name up, with the empty text for a team unknown.
pub fn team_name_or_empty(teams: &HashMap<u64, Team>, team_id: u32, year: u16) -> (name: String)
    ensures
        name@ == team_name(teams@, team_id, year),
{
    let key: u64 = team_key(team_id, year);
    match teams.get(&key) {
        Some(team) => team.team_city_name.clone(),
        None => String::new(),
    }
}

/// Whether the texts of a record can be found: the game has a schedule
/// entry and a boxscore, and the record names an event of the input.
pub open spec fn describable(pitch: Pitch, plays: Seq<PlateAppearance>, game_pk: u32, meta: &MetaData) -> bool {
    &&& meta.schedule@.contains_key(game_pk)
    &&& meta.boxscore@.contains_key(game_pk)
    &&& pitch.plate_appearance_ordinal < plays.len()
    &&& pitch.event_ordinal < plays[pitch.plate_appearance_ordinal as int].play_events@.len()
}

/// The name of a person whom a record names by an optional id, as `get_name`
/// gives it.
pub open spec fn listed_name(players: Map<u32, Player>, id: Option<u32>, name: Option<String>) -> bool {
    match id {
        Some(id) => if players.contains_key(id) {
            name == Some(players[id].name)
        } else {
            name is None
        },
        None => name is None,
    }
}

/// Whether the texts are those of the record: identifier, start time and
/// descriptions are the event's and the plate appearance's, with the empty
/// text where the source has none; the names of fielders and umpire and of
/// whoever fielded the ball, and the records of pitcher and batter, are the
/// directory's for the ids in the record; and the team names are the directory's, in the season of the
/// game, for the teams of the boxscore, the home team being the pitcher's
/// team in the top half and the batter's team in the bottom half.
pub open spec fn texts_of(
    text: PitchText,
    pitch: Pitch,
    plays: Seq<PlateAppearance>,
    game_pk: u32,
    meta: &MetaData,
) -> bool {
    let plate_appearance = plays[pitch.plate_appearance_ordinal as int];
    let event = plate_appearance.play_events@[pitch.event_ordinal as int];
    let box_score = meta.boxscore@[game_pk];
    let year = meta.schedule@[game_pk].game_date.year;
    let players = meta.players@;
    let home = team_name(meta.teams@, box_score.home_team_id, year);
    let away = team_name(meta.teams@, box_score.away_team_id, year);
    let home_parent = team_name(meta.teams@, box_score.home_parent_team_id, year);
    let away_parent = team_name(meta.teams@, box_score.away_parent_team_id, year);
    let top = pitch.half_inning == HalfInning::Top;
    &&& text.play_id@ == text_of(event.play_id)
    &&& text.start_time == event.start_time
    &&& text.description@ == text_of(event.description)
    &&& text.plate_appearance_description@ == text_of(
        plate_appearance.plate_appearance_result_description,
    )
    &&& listed_name(players, pitch.catcher_id, text.catcher_name)
    &&& listed_name(players, pitch.first_base_id, text.first_base_name)
    &&& listed_name(players, pitch.second_base_id, text.second_base_name)
    &&& listed_name(players, pitch.short_stop_id, text.short_stop_name)
    &&& listed_name(players, pitch.third_base_id, text.third_base_name)
    &&& listed_name(players, pitch.left_field_id, text.left_field_name)
    &&& listed_name(players, pitch.center_field_id, text.center_field_name)
    &&& listed_name(players, pitch.right_field_id, text.right_field_name)
    &&& listed_name(players, pitch.hp_umpire_id, text.hp_umpire_name)
    &&& match pitch.hp_umpire_id {
        Some(id) => if players.contains_key(id) {
            &&& text.hp_umpire_birth_date == players[id].birth_date
            &&& text.hp_umpire_height == Some(players[id].height_in)
            &&& text.hp_umpire_height_str == players[id].height_str
        } else {
            text.hp_umpire_birth_date is None && text.hp_umpire_height is None
                && text.hp_umpire_height_str is None
        },
        None => text.hp_umpire_birth_date is None && text.hp_umpire_height is None
            && text.hp_umpire_height_str is None,
    }
    &&& resolves(text.pitcher, players, pitch.pitcher)
    &&& resolves(text.batter, players, pitch.batter)
    &&& text.fielded_by_name@ == fielder_name(players, pitch.fielded_by_id)
    &&& text.team_name_home@ == home
    &&& text.team_name_away@ == away
    &&& text.pitcher_team_name@ == if top {
        home
    } else {
        away
    }
    &&& text.pitcher_parent_team_name@ == if top {
        home_parent
    } else {
        away_parent
    }
    &&& text.batter_team_name@ == if top {
        away
    } else {
        home
    }
    &&& text.batter_parent_team_name@ == if top {
        away_parent
    } else {
        home_parent
    }
}

/// Finds the texts that go with a pitch record of the given game. There are
/// none where the game lacks a schedule entry or a boxscore, or where the
/// record names no event of the input.
pub fn describe(pitch: &Pitch, plays: &Vec<PlateAppearance>, game_pk: u32, meta: &MetaData) -> (text: Option<
    PitchText,
>)
    ensures
        (match text {
            Some(text) => describable(*pitch, plays@, game_pk, meta) && texts_of(
                text,
                *pitch,
                plays@,
                game_pk,
                meta,
            ),
            None => !describable(*pitch, plays@, game_pk, meta),
        }),
{
    let year: u16 = match meta.schedule.get(&game_pk) {
        Some(game) => game.game_date.year,
        None => { return None; },
    };
    let box_score: &BoxScore = match meta.boxscore.get(&game_pk) {
        Some(box_score) => box_score,
        None => { return None; },
    };
    if pitch.plate_appearance_ordinal >= plays.len() {
        return None;
    }
    let plate_appearance: &PlateAppearance = &plays[pitch.plate_appearance_ordinal];
    if pitch.event_ordinal >= plate_appearance.play_events.len() {
        return None;
    }
    let event: &PlayEvent = &plate_appearance.play_events[pitch.event_ordinal];
    let players: &HashMap<u32, Player> = &meta.players;
    let umpire: (Option<String>, Option<Date>, Option<u8>, Option<String>) = get_ump(
        pitch.hp_umpire_id,
        players,
    );
    let top: bool = pitch.half_inning == HalfInning::Top;
    let (fielding_id, fielding_parent_id, batting_id, batting_parent_id) = if top {
        (
            box_score.home_team_id,
            box_score.home_parent_team_id,
            box_score.away_team_id,
            box_score.away_parent_team_id,
        )
    } else {
        (
            box_score.away_team_id,
            box_score.away_parent_team_id,
            box_score.home_team_id,
            box_score.home_parent_team_id,
        )
    };
    Some(
        PitchText {
            play_id: text_or_empty(&event.play_id),
            start_time: copy_text(&event.start_time),
            description: text_or_empty(&event.description),
            plate_appearance_description: text_or_empty(
                &plate_appearance.plate_appearance_result_description,
            ),
            catcher_name: get_name(pitch.catcher_id, players),
            first_base_name: get_name(pitch.first_base_id, players),
            second_base_name: get_name(pitch.second_base_id, players),
            short_stop_name: get_name(pitch.short_stop_id, players),
            third_base_name: get_name(pitch.third_base_id, players),
            left_field_name: get_name(pitch.left_field_id, players),
            center_field_name: get_name(pitch.center_field_id, players),
            right_field_name: get_name(pitch.right_field_id, players),
            hp_umpire_name: umpire.0,
            hp_umpire_birth_date: umpire.1,
            hp_umpire_height: umpire.2,
            hp_umpire_height_str: umpire.3,
            pitcher: player_or_default(players, pitch.pitcher),
            pitcher_team_name: team_name_or_empty(&meta.teams, fielding_id, year),
            pitcher_parent_team_name: team_name_or_empty(&meta.teams, fielding_parent_id, year),
            batter: player_or_default(players, pitch.batter),
            batter_team_name: team_name_or_empty(&meta.teams, batting_id, year),
            batter_parent_team_name: team_name_or_empty(&meta.teams, batting_parent_id, year),
            fielded_by_name: match pitch.fielded_by_id {
                Some(id) => name_or_empty(players, id),
                None => String::new(),
            },
            team_name_home: team_name_or_empty(&meta.teams, box_score.home_team_id, year),
            team_name_away: team_name_or_empty(&meta.teams, box_score.away_team_id, year),
        },
    )
}

} // verus!
