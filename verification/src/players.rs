//! The directory of people and teams that a reconstruction looks names and
//! biographical details up in.

use std::collections::HashMap;
use vstd::prelude::*;
use crate::play_by_play::{SideCode, SideDescription};

verus! {

/// A calendar date.
#[derive(Clone, Copy, Debug, PartialEq, Eq)]
pub struct Date {
    pub year: u16,
    pub month: u8,
    pub day: u8,
}

/// What the directory knows of one person: a player, a coach or an umpire.
#[derive(Clone, Debug, PartialEq, Eq)]
pub struct Player {
    pub name: String,
    pub birth_date: Option<Date>,
    pub mlb_debut_date: Option<Date>,
    pub birth_city: Option<String>,
    pub birth_state_province: Option<String>,
    pub birth_country: Option<String>,
    pub height_in: u8,
    pub height_str: Option<String>,
    pub weight: Option<u16>,
    pub draft_school_name: Option<String>,
    pub draft_year: Option<u16>,
    pub draft_pick_number: Option<u16>,
    pub fangraphs_id: Option<String>,
    pub retrosheet_id: Option<String>,
    pub highschool_city: Option<String>,
    pub highschool_prov_state: Option<String>,
    pub college_name: Option<String>,
    pub bat_side_code: Option<SideCode>,
    pub bat_side_description: Option<SideDescription>,
    pub throws_code: Option<SideCode>,
    pub throws_description: Option<SideDescription>,
}

/// What the directory knows of one team in one season.
#[derive(Clone, Debug, PartialEq, Eq)]
pub struct Team {
    pub id: u32,
    pub team_city_name: String,
}

/// The key under which the team directory lists a team in a season.
pub open spec fn spec_team_key(team_id: u32, year: u16) -> u64 {
    (team_id as u64 * 65536 + year as u64) as u64
}

#[verifier::when_used_as_spec(spec_team_key)]
pub fn team_key(team_id: u32, year: u16) -> (key: u64)
    ensures
        key == spec_team_key(team_id, year),
{
    team_id as u64 * 65536 + year as u64
}

/// A copy of an optional text.
pub fn copy_text(text: &Option<String>) -> (copy: Option<String>)
    ensures
        copy == *text,
{
    match text {
        Some(text) => Some(text.clone()),
        None => None,
    }
}

impl Player {
    /// Whether this is the record that stands for a person unknown: an empty
    /// name, a height of zero, and nothing else.
    pub open spec fn is_blank(self) -> bool {
        &&& self.name@ == Seq::<char>::empty()
        &&& self.birth_date is None
        &&& self.mlb_debut_date is None
        &&& self.birth_city is None
        &&& self.birth_state_province is None
        &&& self.birth_country is None
        &&& self.height_in == 0
        &&& self.height_str is None
        &&& self.weight is None
        &&& self.draft_school_name is None
        &&& self.draft_year is None
        &&& self.draft_pick_number is None
        &&& self.fangraphs_id is None
        &&& self.retrosheet_id is None
        &&& self.highschool_city is None
        &&& self.highschool_prov_state is None
        &&& self.college_name is None
        &&& self.bat_side_code is None
        &&& self.bat_side_description is None
        &&& self.throws_code is None
        &&& self.throws_description is None
    }

    /// A copy of the record.
    pub fn duplicate(&self) -> (copy: Player)
        ensures
            copy == *self,
    {
        Player {
            name: self.name.clone(),
            birth_date: self.birth_date,
            mlb_debut_date: self.mlb_debut_date,
            birth_city: copy_text(&self.birth_city),
            birth_state_province: copy_text(&self.birth_state_province),
            birth_country: copy_text(&self.birth_country),
            height_in: self.height_in,
            height_str: copy_text(&self.height_str),
            weight: self.weight,
            draft_school_name: copy_text(&self.draft_school_name),
            draft_year: self.draft_year,
            draft_pick_number: self.draft_pick_number,
            fangraphs_id: copy_text(&self.fangraphs_id),
            retrosheet_id: copy_text(&self.retrosheet_id),
            highschool_city: copy_text(&self.highschool_city),
            highschool_prov_state: copy_text(&self.highschool_prov_state),
            college_name: copy_text(&self.college_name),
            bat_side_code: self.bat_side_code,
            bat_side_description: self.bat_side_description,
            throws_code: self.throws_code,
            throws_description: self.throws_description,
        }
    }
}

impl Default for Player {
    /// The record that stands for a person unknown.
    fn default() -> (player: Player)
        ensures
            player.is_blank(),
    {
        Player {
            name: String::new(),
            birth_date: None,
            mlb_debut_date: None,
            birth_city: None,
            birth_state_province: None,
            birth_country: None,
            height_in: 0,
            height_str: None,
            weight: None,
            draft_school_name: None,
            draft_year: None,
            draft_pick_number: None,
            fangraphs_id: None,
            retrosheet_id: None,
            highschool_city: None,
            highschool_prov_state: None,
            college_name: None,
            bat_side_code: None,
            bat_side_description: None,
            throws_code: None,
            throws_description: None,
        }
    }
}

/// Whether a record is what the directory gives for a person: the
/// directory's entry, and the blank record where it has none.
pub open spec fn resolves(player: Player, players: Map<u32, Player>, id: u32) -> bool {
    if players.contains_key(id) {
        player == players[id]
    } else {
        player.is_blank()
    }
}

/// Looks a person up in the directory. A person unknown gives the blank
/// record.
pub fn player_or_default(players: &HashMap<u32, Player>, id: u32) -> (player: Player)
    ensures
        resolves(player, players@, id),
{
    match players.get(&id) {
        Some(player) => player.duplicate(),
        None => Player::default(),
    }
}

} // verus!
