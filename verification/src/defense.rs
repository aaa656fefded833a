//! The defensive projection of a pitch: one row for each fielder on the
//! field when a ball was put in play.

use std::collections::HashMap;
use vstd::prelude::*;
use crate::boxscore::Pos;
use crate::game::Pitch;
use crate::play_by_play::{Hardness, SideCode, SideDescription, Trajectory};
use crate::players::{copy_text, Date, Player};

verus! {

/// One fielder on one ball in play. The row names the pitch that it comes
/// from as the pitch record does, by the positions of its plate appearance
/// and its event in the input.
#[derive(Clone, Debug, PartialEq, Eq)]
pub struct Defense {
    pub plate_appearance_ordinal: usize,
    pub event_ordinal: usize,

    pub fielder: u32,
    pub fielder_name: String,
    pub fielder_birth_date: Option<Date>,
    pub fielder_draft_pick_number: Option<u16>,
    pub fielder_throws_code: Option<SideCode>,
    pub fielder_throws_desc: Option<SideDescription>,
    pub fielder_height_str: Option<String>,
    pub fielder_height_in: u8,
    pub fielder_weight: Option<u16>,
    pub fielder_college_name: Option<String>,
    pub fielder_birth_country: Option<String>,

    pub position: Pos,

    pub batter_bats: SideCode,
    pub batter_bats_desc: Option<SideDescription>,
    pub batter: u32,
    pub pitcher: u32,
    pub hit_data_trajectory: Option<Trajectory>,
    pub hit_data_contact_quality: Option<Hardness>,
    pub sport_id: u32,
    pub team_id: u32,
    pub parent_team_id: u32,
    pub venue_id: u32,
    pub game_pk: u32,
}

/// The fielder in a slot, if there is one, with the slot's position.
pub open spec fn slot(occupant: Option<u32>, position: Pos) -> Seq<(u32, Pos)> {
    match occupant {
        Some(id) => seq![(id, position)],
        None => Seq::empty(),
    }
}

/// The fielders of a pitch, in the order in which they are projected:
/// catcher, first base, second base, third base, shortstop, left field,
/// right field, center field, as far as the positions are filled, and the
/// pitcher last.
pub open spec fn fielders(pitch: Pitch) -> Seq<(u32, Pos)> {
    slot(pitch.catcher_id, Pos::Catcher) + slot(pitch.first_base_id, Pos::FirstBase) + slot(
        pitch.second_base_id,
        Pos::SecondBase,
    ) + slot(pitch.third_base_id, Pos::ThirdBase) + slot(pitch.short_stop_id, Pos::ShortStop)
        + slot(pitch.left_field_id, Pos::LeftField) + slot(pitch.right_field_id, Pos::RightField)
        + slot(pitch.center_field_id, Pos::CenterField) + seq![(pitch.pitcher, Pos::Pitcher)]
}

/// Whether the directory has an entry for every one of the fielders.
pub open spec fn all_listed(fielders: Seq<(u32, Pos)>, players: Map<u32, Player>) -> bool {
    forall|i: int| 0 <= i < fielders.len() ==> players.contains_key((#[trigger] fielders[i]).0)
}

/// The row of one fielder of a pitch.
pub open spec fn defense_row(pitch: Pitch, fielder: (u32, Pos), player: Player) -> Defense {
    Defense {
        plate_appearance_ordinal: pitch.plate_appearance_ordinal,
        event_ordinal: pitch.event_ordinal,
        fielder: fielder.0,
        fielder_name: player.name,
        fielder_birth_date: player.birth_date,
        fielder_draft_pick_number: player.draft_pick_number,
        fielder_throws_code: player.throws_code,
        fielder_throws_desc: player.throws_description,
        fielder_height_str: player.height_str,
        fielder_height_in: player.height_in,
        fielder_weight: player.weight,
        fielder_college_name: player.college_name,
        fielder_birth_country: player.birth_country,
        position: fielder.1,
        batter_bats: pitch.batter_bats,
        batter_bats_desc: pitch.batter_bats_desc,
        batter: pitch.batter,
        pitcher: pitch.pitcher,
        hit_data_trajectory: pitch.hit_data_trajectory,
        hit_data_contact_quality: pitch.hit_data_contact_quality,
        sport_id: pitch.sport_id,
        team_id: pitch.pitcher_team_id,
        parent_team_id: pitch.pitcher_parent_team_id,
        venue_id: pitch.venue_id,
        game_pk: pitch.game_pk,
    }
}

/// The rows of the given fielders of a pitch, each of whom the directory
/// lists.
pub open spec fn rows(pitch: Pitch, fielders: Seq<(u32, Pos)>, players: Map<u32, Player>) -> Seq<Defense> {
    Seq::new(fielders.len(), |i: int| defense_row(pitch, fielders[i], players[fielders[i].0]))
}

/// The defensive projection of a pitch: one row for each of its fielders,
/// in their order, where the ball was put in play and the directory lists
/// every fielder, and no row at all otherwise.
pub open spec fn projection(pitch: Pitch, players: Map<u32, Player>) -> Seq<Defense> {
    if pitch.in_play == 1 && all_listed(fielders(pitch), players) {
        rows(pitch, fielders(pitch), players)
    } else {
        Seq::empty()
    }
}

fn add_slot(list: &mut Vec<(u32, Pos)>, occupant: Option<u32>, position: Pos)
    ensures
        final(list)@ == old(list)@ + slot(occupant, position),
{
    match occupant {
        Some(id) => { list.push((id, position)); },
        None => {},
    }
}

/// Lists the fielders of a pitch.
pub fn list_fielders(pitch: &Pitch) -> (list: Vec<(u32, Pos)>)
    ensures
        list@ == fielders(*pitch),
{
    let mut list: Vec<(u32, Pos)> = Vec::new();
    add_slot(&mut list, pitch.catcher_id, Pos::Catcher);
    add_slot(&mut list, pitch.first_base_id, Pos::FirstBase);
    add_slot(&mut list, pitch.second_base_id, Pos::SecondBase);
    add_slot(&mut list, pitch.third_base_id, Pos::ThirdBase);
    add_slot(&mut list, pitch.short_stop_id, Pos::ShortStop);
    add_slot(&mut list, pitch.left_field_id, Pos::LeftField);
    add_slot(&mut list, pitch.right_field_id, Pos::RightField);
    add_slot(&mut list, pitch.center_field_id, Pos::CenterField);
    list.push((pitch.pitcher, Pos::Pitcher));
    list
}

/// Projects a pitch onto its fielders.
pub fn project_defense(pitch: &Pitch, players: &HashMap<u32, Player>) -> (projected: Vec<Defense>)
    ensures
        projected@ == projection(*pitch, players@),
{
    let list: Vec<(u32, Pos)> = list_fielders(pitch);
    let mut projected: Vec<Defense> = Vec::new();
    let mut i: usize = 0;
    while i < list.len()
        invariant
            i <= list.len(),
            list@ == fielders(*pitch),
            all_listed(list@.take(i as int), players@),
            projected@ == rows(*pitch, list@.take(i as int), players@),
        decreases list.len() - i,
    {
        let fielder: (u32, Pos) = list[i];
        let player: &Player = match players.get(&fielder.0) {
            Some(player) => player,
            None => { return Vec::new(); },
        };
        projected.push(
            Defense {
                plate_appearance_ordinal: pitch.plate_appearance_ordinal,
                event_ordinal: pitch.event_ordinal,
                fielder: fielder.0,
                fielder_name: player.name.clone(),
                fielder_birth_date: player.birth_date,
                fielder_draft_pick_number: player.draft_pick_number,
                fielder_throws_code: player.throws_code,
                fielder_throws_desc: player.throws_description,
                fielder_height_str: copy_text(&player.height_str),
                fielder_height_in: player.height_in,
                fielder_weight: player.weight,
                fielder_college_name: copy_text(&player.college_name),
                fielder_birth_country: copy_text(&player.birth_country),
                position: fielder.1,
                batter_bats: pitch.batter_bats,
                batter_bats_desc: pitch.batter_bats_desc,
                batter: pitch.batter,
                pitcher: pitch.pitcher,
                hit_data_trajectory: pitch.hit_data_trajectory,
                hit_data_contact_quality: pitch.hit_data_contact_quality,
                sport_id: pitch.sport_id,
                team_id: pitch.pitcher_team_id,
                parent_team_id: pitch.pitcher_parent_team_id,
                venue_id: pitch.venue_id,
                game_pk: pitch.game_pk,
            },
        );
        proof {
            let next = list@.take(i + 1);
            assert forall|j: int| 0 <= j < next.len() implies players@.contains_key(
                (#[trigger] next[j]).0,
            ) by {}
        }
        i = i + 1;
    }
    proof {
        assert(list@.take(i as int) =~= list@);
    }
    if pitch.in_play == 1 {
        projected
    } else {
        Vec::new()
    }
}

} // verus!
