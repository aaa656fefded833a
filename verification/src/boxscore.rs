//! Fielding positions, per-team position assignments and the boxscore data
//! that a reconstruction starts from.

use vstd::prelude::*;

verus! {

/// A position that a player can hold in a game.
#[derive(Clone, Copy, Debug, PartialEq, Eq, Structural)]
pub enum Pos {
    Pitcher,
    Catcher,
    FirstBase,
    SecondBase,
    ThirdBase,
    ShortStop,
    LeftField,
    CenterField,
    RightField,
    DesignatedHitter,
    PinchHitter,
    PinchRunner,
    Bench,
}

/// The current occupant of each position of one team: the eight fielding
/// positions other than the pitcher, the pitcher, and the designated hitter.
#[derive(Clone, Copy, Debug, PartialEq, Eq)]
pub struct Lineup {
    pub catcher: Option<u32>,
    pub first_base: Option<u32>,
    pub second_base: Option<u32>,
    pub short_stop: Option<u32>,
    pub third_base: Option<u32>,
    pub left_field: Option<u32>,
    pub center_field: Option<u32>,
    pub right_field: Option<u32>,
    pub pitcher: Option<u32>,
    pub designated_hitter: Option<u32>,
}

/// Whether a slot holds the given player.
pub open spec fn spec_holds(slot: Option<u32>, player: u32) -> bool {
    slot == Some(player)
}

#[verifier::when_used_as_spec(spec_holds)]
pub fn holds(slot: Option<u32>, player: u32) -> (b: bool)
    ensures
        b == spec_holds(slot, player),
{
    match slot {
        Some(id) => id == player,
        None => false,
    }
}

impl Lineup {
    /// The assignment in which no position is filled.
    pub open spec fn spec_vacant() -> Lineup {
        Lineup {
            catcher: None,
            first_base: None,
            second_base: None,
            short_stop: None,
            third_base: None,
            left_field: None,
            center_field: None,
            right_field: None,
            pitcher: None,
            designated_hitter: None,
        }
    }

    #[verifier::when_used_as_spec(spec_vacant)]
    pub fn vacant() -> (lineup: Lineup)
        ensures
            lineup == Lineup::spec_vacant(),
    {
        Lineup {
            catcher: None,
            first_base: None,
            second_base: None,
            short_stop: None,
            third_base: None,
            left_field: None,
            center_field: None,
            right_field: None,
            pitcher: None,
            designated_hitter: None,
        }
    }

    /// The assignment after `player` has taken `position`. The eight fielding
    /// positions other than the pitcher and the designated hitter each have a
    /// slot, which the player overwrites; any other position leaves the
    /// assignment as it is.
    pub open spec fn spec_assign(self, position: Pos, player: u32) -> Lineup {
        match position {
            Pos::Catcher => Lineup { catcher: Some(player), ..self },
            Pos::FirstBase => Lineup { first_base: Some(player), ..self },
            Pos::SecondBase => Lineup { second_base: Some(player), ..self },
            Pos::ShortStop => Lineup { short_stop: Some(player), ..self },
            Pos::ThirdBase => Lineup { third_base: Some(player), ..self },
            Pos::LeftField => Lineup { left_field: Some(player), ..self },
            Pos::RightField => Lineup { right_field: Some(player), ..self },
            Pos::CenterField => Lineup { center_field: Some(player), ..self },
            Pos::DesignatedHitter => Lineup { designated_hitter: Some(player), ..self },
            _ => self,
        }
    }

    #[verifier::when_used_as_spec(spec_assign)]
    pub fn assign(self, position: Pos, player: u32) -> (lineup: Lineup)
        ensures
            lineup == self.spec_assign(position, player),
    {
        let mut lineup: Lineup = self;
        match position {
            Pos::Catcher => { lineup.catcher = Some(player); },
            Pos::FirstBase => { lineup.first_base = Some(player); },
            Pos::SecondBase => { lineup.second_base = Some(player); },
            Pos::ShortStop => { lineup.short_stop = Some(player); },
            Pos::ThirdBase => { lineup.third_base = Some(player); },
            Pos::LeftField => { lineup.left_field = Some(player); },
            Pos::RightField => { lineup.right_field = Some(player); },
            Pos::CenterField => { lineup.center_field = Some(player); },
            Pos::DesignatedHitter => { lineup.designated_hitter = Some(player); },
            _ => {},
        }
        lineup
    }

    /// The position that `player` holds in this assignment: that of the first
    /// slot holding the player, in the order catcher, first base, second
    /// base, shortstop, third base, left field, right field, center field,
    /// pitcher, designated hitter; `Pos::Bench` when no slot holds the player.
    pub open spec fn spec_position_of(self, player: u32) -> Pos {
        if holds(self.catcher, player) {
            Pos::Catcher
        } else if holds(self.first_base, player) {
            Pos::FirstBase
        } else if holds(self.second_base, player) {
            Pos::SecondBase
        } else if holds(self.short_stop, player) {
            Pos::ShortStop
        } else if holds(self.third_base, player) {
            Pos::ThirdBase
        } else if holds(self.left_field, player) {
            Pos::LeftField
        } else if holds(self.right_field, player) {
            Pos::RightField
        } else if holds(self.center_field, player) {
            Pos::CenterField
        } else if holds(self.pitcher, player) {
            Pos::Pitcher
        } else if holds(self.designated_hitter, player) {
            Pos::DesignatedHitter
        } else {
            Pos::Bench
        }
    }

    #[verifier::when_used_as_spec(spec_position_of)]
    pub fn position_of(self, player: u32) -> (position: Pos)
        ensures
            position == self.spec_position_of(player),
    {
        if holds(self.catcher, player) {
            Pos::Catcher
        } else if holds(self.first_base, player) {
            Pos::FirstBase
        } else if holds(self.second_base, player) {
            Pos::SecondBase
        } else if holds(self.short_stop, player) {
            Pos::ShortStop
        } else if holds(self.third_base, player) {
            Pos::ThirdBase
        } else if holds(self.left_field, player) {
            Pos::LeftField
        } else if holds(self.right_field, player) {
            Pos::RightField
        } else if holds(self.center_field, player) {
            Pos::CenterField
        } else if holds(self.pitcher, player) {
            Pos::Pitcher
        } else if holds(self.designated_hitter, player) {
            Pos::DesignatedHitter
        } else {
            Pos::Bench
        }
    }
}

/// One player of a team's roster for the game, with the player's place in the
/// batting order where the player has one.
#[derive(Clone, Copy, Debug, PartialEq, Eq)]
pub struct RosterEntry {
    pub id: u32,
    pub batting_order: Option<u16>,
}

/// The batting order that a roster gives for a player: that of the last
/// entry for the player, and none when the roster has no entry for the player.
pub open spec fn spec_batting_order(roster: Seq<RosterEntry>, player: u32) -> Option<u16>
    decreases roster.len(),
{
    if roster.len() == 0 {
        None
    } else if roster.last().id == player {
        roster.last().batting_order
    } else {
        spec_batting_order(roster.drop_last(), player)
    }
}

/// Looks a player's batting order up in a roster.
pub fn batting_order(roster: &Vec<RosterEntry>, player: u32) -> (order: Option<u16>)
    ensures
        order == spec_batting_order(roster@, player),
{
    let mut i: usize = roster.len();
    proof {
        assert(roster@.take(i as int) =~= roster@);
    }
    while i > 0
        invariant
            i <= roster.len(),
            spec_batting_order(roster@, player) == spec_batting_order(
                roster@.take(i as int),
                player,
            ),
        decreases i,
    {
        let entry: RosterEntry = roster[i - 1];
        proof {
            let prefix = roster@.take(i as int);
            assert(prefix.drop_last() =~= roster@.take(i - 1));
        }
        if entry.id == player {
            return entry.batting_order;
        }
        i = i - 1;
    }
    None
}

/// What the boxscore of one game holds: the two teams and their parent
/// clubs, each team's starting position assignment and roster, and the
/// home-plate umpire.
#[derive(Clone, Debug, PartialEq, Eq)]
pub struct BoxScore {
    pub home_team_id: u32,
    pub away_team_id: u32,
    pub home_parent_team_id: u32,
    pub away_parent_team_id: u32,
    pub home_defense: Lineup,
    pub away_defense: Lineup,
    pub home_players: Vec<RosterEntry>,
    pub away_players: Vec<RosterEntry>,
    pub hp_umpire_id: Option<u32>,
}

} // verus!
