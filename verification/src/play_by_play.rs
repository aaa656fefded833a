//! The play-by-play input of a reconstruction: plate appearances, the events
//! inside them, and the runner movements tied to those events.

use vstd::prelude::*;
use crate::boxscore::Pos;

verus! {

/// One team's turn at bat within an inning. The away team bats in the top
/// half and the home team in the bottom half.
#[derive(Clone, Copy, Debug, PartialEq, Eq, Structural)]
pub enum HalfInning {
    Top,
    Bottom,
}

/// The kind of an event inside a plate appearance.
#[derive(Clone, Copy, Debug, PartialEq, Eq, Structural)]
pub enum PlayEventType {
    Action,
    Pickoff,
    NoPitch,
    Stepoff,
    Pitch,
}

/// What happened in an action event, or how a plate appearance ended. Every
/// happening that the reconstruction does not tell apart is `Other`.
#[derive(Clone, Copy, Debug, PartialEq, Eq, Structural)]
pub enum Event {
    Single,
    Double,
    Triple,
    HomeRun,
    DefensiveSubstitution,
    DefensiveSwitch,
    OffensiveSubstitution,
    PitchingSubstitution,
    Other,
}

/// The result code of a pitch.
#[derive(Clone, Copy, Debug, PartialEq, Eq, Structural)]
pub enum Code {
    A,
    AB,
    AC,
    B,
    BD,
    C,
    D,
    E,
    F,
    H,
    I,
    J,
    L,
    M,
    N,
    O,
    P,
    PO,
    PSO,
    Q,
    R,
    S,
    T,
    V,
    VB,
    VC,
    VP,
    VS,
    W,
    X,
    Y,
    Z,
}

/// What a pitch came to, as far as the batter's swing is concerned.
#[derive(Clone, Copy, Debug, PartialEq, Eq, Structural)]
pub enum PitchOutcome {
    /// A ball, a pitch in the dirt, a pitchout, or a hit batter: no swing.
    Ball,
    /// A called or automatic strike: no swing.
    CalledStrike,
    /// A swing that missed, a missed bunt among them.
    SwingingStrike,
    /// A foul ball: a swing with contact.
    Foul,
    /// A foul tip: a swing that counts as a miss.
    FoulTip,
    /// A ball put in play: a swing with contact.
    InPlay,
    /// A filler code that decides nothing.
    NoDecision,
}

impl Code {
    /// The outcome that a result code stands for.
    pub open spec fn spec_outcome(self) -> PitchOutcome {
        match self {
            Code::BD | Code::B | Code::P | Code::I | Code::H | Code::VS | Code::VC | Code::VB
            | Code::VP | Code::V => PitchOutcome::Ball,
            Code::C | Code::A | Code::AC | Code::AB => PitchOutcome::CalledStrike,
            Code::S | Code::W | Code::Q | Code::M => PitchOutcome::SwingingStrike,
            Code::F | Code::R | Code::L => PitchOutcome::Foul,
            Code::T | Code::O => PitchOutcome::FoulTip,
            Code::D | Code::E | Code::X | Code::J | Code::Y | Code::Z => PitchOutcome::InPlay,
            Code::N | Code::PSO | Code::PO => PitchOutcome::NoDecision,
        }
    }

    #[verifier::when_used_as_spec(spec_outcome)]
    pub fn outcome(self) -> (outcome: PitchOutcome)
        ensures
            outcome == self.spec_outcome(),
    {
        match self {
            Code::BD | Code::B | Code::P | Code::I | Code::H | Code::VS | Code::VC | Code::VB
            | Code::VP | Code::V => PitchOutcome::Ball,
            Code::C | Code::A | Code::AC | Code::AB => PitchOutcome::CalledStrike,
            Code::S | Code::W | Code::Q | Code::M => PitchOutcome::SwingingStrike,
            Code::F | Code::R | Code::L => PitchOutcome::Foul,
            Code::T | Code::O => PitchOutcome::FoulTip,
            Code::D | Code::E | Code::X | Code::J | Code::Y | Code::Z => PitchOutcome::InPlay,
            Code::N | Code::PSO | Code::PO => PitchOutcome::NoDecision,
        }
    }
}

impl PitchOutcome {
    /// One where the batter swung, zero where not.
    pub open spec fn spec_swing(self) -> u8 {
        match self {
            PitchOutcome::SwingingStrike | PitchOutcome::Foul | PitchOutcome::FoulTip
            | PitchOutcome::InPlay => 1,
            _ => 0,
        }
    }

    #[verifier::when_used_as_spec(spec_swing)]
    pub fn swing(self) -> (swing: u8)
        ensures
            swing == self.spec_swing(),
    {
        match self {
            PitchOutcome::SwingingStrike | PitchOutcome::Foul | PitchOutcome::FoulTip
            | PitchOutcome::InPlay => 1,
            _ => 0,
        }
    }

    /// For a swing, one where it counts as a miss and zero where the bat
    /// made contact; nothing where the batter did not swing.
    pub open spec fn spec_swing_and_miss(self) -> Option<u8> {
        match self {
            PitchOutcome::SwingingStrike | PitchOutcome::FoulTip => Some(1u8),
            PitchOutcome::Foul | PitchOutcome::InPlay => Some(0u8),
            _ => None,
        }
    }

    #[verifier::when_used_as_spec(spec_swing_and_miss)]
    pub fn swing_and_miss(self) -> (miss: Option<u8>)
        ensures
            miss == self.spec_swing_and_miss(),
    {
        match self {
            PitchOutcome::SwingingStrike | PitchOutcome::FoulTip => Some(1u8),
            PitchOutcome::Foul | PitchOutcome::InPlay => Some(0u8),
            _ => None,
        }
    }

    /// One for a foul ball or a foul tip, zero otherwise.
    pub open spec fn spec_foul(self) -> u8 {
        match self {
            PitchOutcome::Foul | PitchOutcome::FoulTip => 1,
            _ => 0,
        }
    }

    #[verifier::when_used_as_spec(spec_foul)]
    pub fn foul(self) -> (foul: u8)
        ensures
            foul == self.spec_foul(),
    {
        match self {
            PitchOutcome::Foul | PitchOutcome::FoulTip => 1,
            _ => 0,
        }
    }
}

/// The flight of a batted ball.
#[derive(Clone, Copy, Debug, PartialEq, Eq, Structural)]
pub enum Trajectory {
    BuntGroundBall,
    BuntLineDrive,
    BuntPopUp,
    FlyBall,
    GroundBall,
    LineDrive,
    PopUp,
    Unknown,
}

/// The side from which a batter bats or with which a pitcher throws.
#[derive(Clone, Copy, Debug, PartialEq, Eq, Structural)]
pub enum SideCode {
    L,
    R,
    /// Either side.
    S,
}

/// A side, written out.
#[derive(Clone, Copy, Debug, PartialEq, Eq, Structural)]
pub enum SideDescription {
    Left,
    Right,
    Switch,
}

/// How hard a ball was hit.
#[derive(Clone, Copy, Debug, PartialEq, Eq, Structural)]
pub enum Hardness {
    Soft,
    Medium,
    Hard,
}

/// The code of a type of pitch.
#[derive(Clone, Copy, Debug, PartialEq, Eq, Structural)]
pub enum PitchTypeCode {
    AB,
    AS,
    CH,
    CS,
    CU,
    EP,
    FA,
    FC,
    FF,
    FO,
    FS,
    FT,
    IN,
    KC,
    KN,
    PO,
    SC,
    SI,
    SL,
    ST,
    SV,
    UN,
}

/// A type of pitch, written out.
#[derive(Clone, Copy, Debug, PartialEq, Eq, Structural)]
pub enum PitchTypeDescription {
    AutomaticBall,
    AutomaticStrike,
    Changeup,
    SlowCurve,
    Curveball,
    Eephus,
    Fastball,
    Cutter,
    FourSeamFastball,
    Forkball,
    Splitter,
    TwoSeamFastball,
    IntentionalBall,
    KnuckleCurve,
    KnuckleBall,
    Pitchout,
    Screwball,
    Sinker,
    Slider,
    Sweeper,
    Slurve,
    Unknown,
}

/// What a pitch event says of the type of the pitch.
#[derive(Clone, Copy, Debug, PartialEq, Eq)]
pub struct PitchType {
    pub code: Option<PitchTypeCode>,
    pub description: Option<PitchTypeDescription>,
}

/// The type of a pitch as a record gives it: nothing where the event says
/// nothing of the type, and otherwise the code and the description that the
/// event gives, with `PitchTypeCode::UN` and
/// `PitchTypeDescription::Unknown` in place of what it leaves out.
pub open spec fn spec_pitch_type_of(pitch_type: Option<PitchType>) -> (
    Option<PitchTypeCode>,
    Option<PitchTypeDescription>,
) {
    match pitch_type {
        Some(given) => (
            Some(
                match given.code {
                    Some(code) => code,
                    None => PitchTypeCode::UN,
                },
            ),
            Some(
                match given.description {
                    Some(description) => description,
                    None => PitchTypeDescription::Unknown,
                },
            ),
        ),
        None => (None, None),
    }
}

#[verifier::when_used_as_spec(spec_pitch_type_of)]
pub fn pitch_type_of(pitch_type: Option<PitchType>) -> (known: (
    Option<PitchTypeCode>,
    Option<PitchTypeDescription>,
))
    ensures
        known == spec_pitch_type_of(pitch_type),
{
    match pitch_type {
        Some(given) => (
            Some(
                match given.code {
                    Some(code) => code,
                    None => PitchTypeCode::UN,
                },
            ),
            Some(
                match given.description {
                    Some(description) => description,
                    None => PitchTypeDescription::Unknown,
                },
            ),
        ),
        None => (None, None),
    }
}

/// A base that a runner can stand on.
#[derive(Clone, Copy, Debug, PartialEq, Eq, Structural)]
pub enum Base {
    First,
    Second,
    Third,
}

impl Base {
    /// What a runner on this base adds to the base-occupancy code: one for
    /// first base, two for second, four for third.
    pub open spec fn spec_occupancy(self) -> u8 {
        match self {
            Base::First => 1,
            Base::Second => 2,
            Base::Third => 4,
        }
    }

    #[verifier::when_used_as_spec(spec_occupancy)]
    pub fn occupancy(self) -> (value: u8)
        ensures
            value == self.spec_occupancy(),
    {
        match self {
            Base::First => 1,
            Base::Second => 2,
            Base::Third => 4,
        }
    }
}

/// The event index under which a plate appearance lists the runner movements
/// that belong to no event of it.
pub const UNASSIGNED: i8 = -1;

/// One runner's contribution to the base and out state, tied to the event of
/// the plate appearance with the index `play_index`, or to the plate
/// appearance as a whole where that is `UNASSIGNED`.
#[derive(Clone, Copy, Debug, PartialEq, Eq)]
pub struct RunnerMovement {
    pub play_index: i8,
    pub runner_id: u32,
    /// What the runner adds to the base-occupancy code after the movement.
    pub end_base_value: u8,
    /// Outs recorded on the movement.
    pub outs: u8,
    /// Runs scored on the movement.
    pub runs: u8,
    pub fielded_by_id: Option<u32>,
    pub fielded_by_pos: Option<Pos>,
}

/// Which raw kinematic measurements a pitch carries. The measurements
/// themselves are real numbers and stay with the caller; the reconstruction
/// only needs to know which of them are present.
#[derive(Clone, Copy, Debug, PartialEq, Eq)]
pub struct PitchData {
    pub x0: bool,
    pub y0: bool,
    pub z0: bool,
    pub v_x0: bool,
    pub v_y0: bool,
    pub v_z0: bool,
    pub a_x: bool,
    pub a_y: bool,
    pub a_z: bool,
    pub p_x: bool,
    pub p_z: bool,
    pub extension: bool,
}

impl PitchData {
    /// Whether the pitch carries every measurement that the trajectory
    /// physics model needs: the three components each of initial position,
    /// velocity and acceleration, the two plate-crossing coordinates, and the
    /// release extension.
    pub open spec fn spec_is_complete(self) -> bool {
        self.v_y0 && self.v_x0 && self.v_z0 && self.a_y && self.a_x && self.a_z && self.y0
            && self.x0 && self.z0 && self.p_x && self.p_z && self.extension
    }

    #[verifier::when_used_as_spec(spec_is_complete)]
    pub fn is_complete(self) -> (b: bool)
        ensures
            b == self.spec_is_complete(),
    {
        self.v_y0 && self.v_x0 && self.v_z0 && self.a_y && self.a_x && self.a_z && self.y0
            && self.x0 && self.z0 && self.p_x && self.p_z && self.extension
    }
}

/// What a pitch event says of a batted ball. The landing coordinates are real
/// numbers and stay with the caller.
#[derive(Clone, Copy, Debug, PartialEq, Eq)]
pub struct HitData {
    pub trajectory: Option<Trajectory>,
    pub hardness: Option<Hardness>,
    /// Whether the horizontal landing coordinate is present.
    pub coord_x: bool,
    /// Whether the vertical landing coordinate is present.
    pub coord_y: bool,
}

/// A single occurrence within a plate appearance.
#[derive(Clone, Debug, PartialEq, Eq)]
pub struct PlayEvent {
    /// The index that runner movements name this event by.
    pub index: i8,
    pub play_event_type: PlayEventType,
    /// What happened, for an action.
    pub event: Option<Event>,
    /// The player who entered the game, for a substitution or switch.
    pub player_id: Option<u32>,
    /// The position that the entering player took.
    pub position: Option<Pos>,
    /// The base that the entering player took over as a runner.
    pub base: Option<Base>,
    pub is_in_play: Option<bool>,
    pub code: Option<Code>,
    pub description: Option<String>,
    /// Balls in the count after the event, as the source reports them.
    pub balls: Option<u8>,
    /// Strikes in the count after the event, as the source reports them.
    pub strikes: Option<u8>,
    pub pitch_type: Option<PitchType>,
    pub pitch_data: Option<PitchData>,
    pub hit_data: Option<HitData>,
    pub play_id: Option<String>,
    pub start_time: Option<String>,
}

/// One batter's turn: an ordered list of events, and the runner movements of
/// the turn in source order.
#[derive(Clone, Debug, PartialEq, Eq)]
pub struct PlateAppearance {
    pub half_inning: HalfInning,
    /// Position of the plate appearance within the game, from zero.
    pub plate_appearance_index: u8,
    pub inning_num: u8,
    pub batter_id: u32,
    pub batter_bat_side_code: SideCode,
    pub batter_bat_side_desc: Option<SideDescription>,
    pub pitcher_id: u32,
    pub pitcher_pitch_hand_code: SideCode,
    pub pitcher_pitch_hand_desc: Option<SideDescription>,
    pub plate_appearance_result: Option<Event>,
    pub plate_appearance_result_description: Option<String>,
    pub runners: Vec<RunnerMovement>,
    pub play_events: Vec<PlayEvent>,
}

} // verus!
