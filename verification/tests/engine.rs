use pitch_engine::boxscore::{Lineup, Pos, RosterEntry};
use pitch_engine::engine::{
    contact_quality, double_play_opportunity, indicator, located, position_taken, result_in_play,
    tagged_trajectory, Context, Counters, Engine, PitcherUsage,
};
use pitch_engine::game::{PitcherSPRP, ReconstructError, Setup};
use pitch_engine::play_by_play::{
    pitch_type_of, Code, Event, HalfInning, Hardness, HitData, PitchData, PitchType,
    PitchTypeCode, PitchTypeDescription, PlateAppearance, PlayEvent, PlayEventType,
    RunnerMovement, SideCode, Trajectory,
};
use pitch_engine::run_expectancy::RE288;

fn fixed() -> Setup {
    Setup {
        game_pk: 1,
        game_year: 2020,
        game_month: 8,
        sport_id: 1,
        venue_id: 2,
        hp_umpire_id: None,
        home_team_id: 3,
        away_team_id: 4,
        home_parent_team_id: 5,
        away_parent_team_id: 6,
    }
}

fn pitch(index: i8, balls: u8, strikes: u8) -> PlayEvent {
    PlayEvent {
        index,
        play_event_type: PlayEventType::Pitch,
        event: None,
        player_id: None,
        position: None,
        base: None,
        is_in_play: Some(false),
        code: Some(Code::B),
        description: None,
        balls: Some(balls),
        strikes: Some(strikes),
        pitch_type: None,
        pitch_data: Some(PitchData {
            x0: true,
            y0: true,
            z0: true,
            v_x0: true,
            v_y0: true,
            v_z0: true,
            a_x: true,
            a_y: true,
            a_z: true,
            p_x: true,
            p_z: true,
            extension: true,
        }),
        hit_data: None,
        play_id: None,
        start_time: None,
    }
}

fn plate_appearance(half_inning: HalfInning, play_events: Vec<PlayEvent>) -> PlateAppearance {
    PlateAppearance {
        half_inning,
        plate_appearance_index: 0,
        inning_num: 3,
        batter_id: 1,
        batter_bat_side_code: SideCode::R,
        batter_bat_side_desc: None,
        pitcher_id: 2,
        pitcher_pitch_hand_code: SideCode::R,
        pitcher_pitch_hand_desc: None,
        plate_appearance_result: None,
        plate_appearance_result_description: None,
        runners: vec![RunnerMovement {
            play_index: -1,
            runner_id: 8,
            end_base_value: 2,
            outs: 0,
            runs: 0,
            fielded_by_id: None,
            fielded_by_pos: None,
        }],
        play_events,
    }
}

#[test]
fn game_starts_with_starters_and_nothing_counted() {
    let home = Lineup { catcher: Some(1), ..Lineup::vacant() };
    let away = Lineup { catcher: Some(2), ..Lineup::vacant() };
    let c = Counters::initial(home, away);
    assert_eq!(c.previous_half_inning, HalfInning::Top);
    assert_eq!((c.base_value_start, c.outs_start), (0, 0));
    assert_eq!((c.pitch_num_inning, c.pitch_num_game, c.pitch_num_plate_appearance), (0, 0, 0));
    assert_eq!((c.balls_start, c.strikes_start), (0, 0));
    assert_eq!(c.home_pitcher, PitcherUsage::starter());
    assert_eq!(c.away_pitcher, PitcherUsage::starter());
    assert_eq!(c.home_defense, home);
    assert_eq!(c.away_defense, away);
    assert!(!c.preceded_by_pickoff);
    assert!(c.batter_responsible);
    assert_eq!(
        PitcherUsage::starter(),
        PitcherUsage { role: PitcherSPRP::SP, num_pitch: 0, num_plate_appearance: 0 }
    );
    assert_eq!(
        PitcherUsage::reliever(),
        PitcherUsage { role: PitcherSPRP::RP, num_pitch: 0, num_plate_appearance: 0 }
    );
}

#[test]
fn home_team_fields_in_the_top_half() {
    let home = Lineup { catcher: Some(1), ..Lineup::vacant() };
    let away = Lineup { catcher: Some(2), ..Lineup::vacant() };
    let c = Counters::initial(home, away);
    assert_eq!(c.fielding(HalfInning::Top), home);
    assert_eq!(c.fielding(HalfInning::Bottom), away);
    let used = PitcherUsage { role: PitcherSPRP::RP, num_pitch: 9, num_plate_appearance: 2 };
    let top = c.with_pitching(HalfInning::Top, used);
    assert_eq!(top.pitching(HalfInning::Top), used);
    assert_eq!(top.home_pitcher, used);
    assert_eq!(top.pitching(HalfInning::Bottom), PitcherUsage::starter());
    let bottom = c.with_pitching(HalfInning::Bottom, used);
    assert_eq!(bottom.away_pitcher, used);
    assert_eq!(bottom.home_pitcher, PitcherUsage::starter());
    let moved = c.with_fielding(HalfInning::Top, away);
    assert_eq!((moved.home_defense, moved.away_defense), (away, away));
    let moved = c.with_fielding(HalfInning::Bottom, home);
    assert_eq!((moved.home_defense, moved.away_defense), (home, home));
}

#[test]
fn entering_a_plate_appearance_resets_the_count() {
    let mut c = Counters::initial(Lineup::vacant(), Lineup::vacant());
    c.balls_start = 3;
    c.strikes_start = 2;
    c.pitch_num_plate_appearance = 6;
    c.pitch_num_inning = 20;
    c.pitch_num_game = 90;
    c.outs_start = 2;
    c.base_value_start = 5;
    c.preceded_by_pickoff = true;
    c.batter_responsible = false;
    let same = c.enter(HalfInning::Top).unwrap();
    assert_eq!((same.balls_start, same.strikes_start, same.pitch_num_plate_appearance), (0, 0, 0));
    assert_eq!((same.outs_start, same.base_value_start, same.pitch_num_inning), (2, 5, 20));
    assert_eq!(same.pitch_num_game, 90);
    assert!(!same.preceded_by_pickoff);
    assert!(same.batter_responsible);
    assert_eq!(same.home_pitcher.num_plate_appearance, 1);
    assert_eq!(same.away_pitcher.num_plate_appearance, 0);
    assert_eq!(same.previous_half_inning, HalfInning::Top);
    let other = c.enter(HalfInning::Bottom).unwrap();
    assert_eq!((other.outs_start, other.base_value_start, other.pitch_num_inning), (0, 0, 0));
    assert_eq!(other.pitch_num_game, 90);
    assert_eq!(other.home_pitcher.num_plate_appearance, 0);
    assert_eq!(other.away_pitcher.num_plate_appearance, 1);
    assert_eq!(other.previous_half_inning, HalfInning::Bottom);
}

#[test]
fn entering_fails_when_the_pitcher_s_counter_is_full() {
    let mut c = Counters::initial(Lineup::vacant(), Lineup::vacant());
    c.home_pitcher.num_plate_appearance = u16::MAX;
    assert_eq!(c.enter(HalfInning::Top), Err(ReconstructError::CounterOverflow));
    assert!(c.enter(HalfInning::Bottom).is_ok());
    c.home_pitcher.num_plate_appearance = u16::MAX - 1;
    assert_eq!(c.enter(HalfInning::Top).unwrap().home_pitcher.num_plate_appearance, u16::MAX);
}

#[test]
fn small_helpers_decide_as_documented() {
    assert!(double_play_opportunity(0, 1));
    assert!(double_play_opportunity(1, 7));
    assert!(!double_play_opportunity(2, 1));
    assert!(!double_play_opportunity(0, 0));
    assert!(!double_play_opportunity(0, 2));
    assert!(!double_play_opportunity(0, 9));
    assert_eq!(indicator(Event::Single, Event::Single), 1);
    assert_eq!(indicator(Event::Double, Event::Single), 0);
    assert_eq!(result_in_play(Some(Event::Triple)), Event::Triple);
    assert_eq!(result_in_play(None), Event::Other);
    assert_eq!(position_taken(Some(Pos::LeftField)), Pos::LeftField);
    assert_eq!(position_taken(None), Pos::DesignatedHitter);
    let hit = HitData {
        trajectory: Some(Trajectory::FlyBall),
        hardness: Some(Hardness::Medium),
        coord_x: true,
        coord_y: true,
    };
    assert_eq!(contact_quality(Some(hit)), Some(Hardness::Medium));
    assert_eq!(contact_quality(Some(HitData { hardness: None, ..hit })), None);
    assert_eq!(contact_quality(None), None);
    assert_eq!(pitch_type_of(None), (None, None));
    assert_eq!(
        pitch_type_of(Some(PitchType { code: None, description: Some(PitchTypeDescription::Sinker) })),
        (Some(PitchTypeCode::UN), Some(PitchTypeDescription::Sinker))
    );
    assert_eq!(tagged_trajectory(Some(hit)), Some(Trajectory::FlyBall));
    assert_eq!(tagged_trajectory(Some(HitData { trajectory: None, ..hit })), None);
    assert_eq!(tagged_trajectory(None), None);
    assert!(located(Some(hit)));
    assert!(!located(Some(HitData { coord_x: false, ..hit })));
    assert!(!located(Some(HitData { coord_y: false, ..hit })));
    assert!(!located(None));
}

#[test]
fn engine_goes_through_a_plate_appearance_step_by_step() {
    let home_players: Vec<RosterEntry> = Vec::new();
    let away_players = vec![RosterEntry { id: 1, batting_order: Some(500) }];
    let table = vec![RE288 { outs: 0, balls: 0, strikes: 0, base_value: 0, run_expectancy: 500 }];
    let context = Context {
        setup: fixed(),
        home_players: &home_players,
        away_players: &away_players,
        table: &table,
    };
    let pa = plate_appearance(
        HalfInning::Bottom,
        vec![pitch(0, 1, 0), PlayEvent { play_event_type: PlayEventType::Pickoff, ..pitch(1, 1, 0) }, pitch(2, 2, 0)],
    );
    let mut engine = Engine::new(Lineup::vacant(), Lineup::vacant());
    assert_eq!(engine.enter(&pa), Ok(()));
    assert_eq!(engine.counters.previous_half_inning, HalfInning::Bottom);
    assert_eq!(engine.step(&pa, 4, 0, &context), Ok(()));
    assert_eq!(engine.pitches.len(), 1);
    assert_eq!(engine.counters.balls_start, 1);
    assert_eq!(engine.step(&pa, 4, 1, &context), Ok(()));
    assert_eq!(engine.pitches.len(), 1);
    assert!(engine.counters.preceded_by_pickoff);
    assert_eq!(engine.step(&pa, 4, 2, &context), Ok(()));
    assert_eq!(engine.pitches.len(), 2);
    assert!(!engine.counters.preceded_by_pickoff);
    let last = engine.pitches[1];
    assert_eq!((last.plate_appearance_ordinal, last.event_ordinal), (4, 2));
    assert!(last.preceded_by_pickoff);
    assert_eq!(last.num_inning, 3);
    assert_eq!(last.batter_batting_order, None);
    assert_eq!((last.pitcher_team_id, last.pitcher_parent_team_id), (4, 6));
    assert_eq!((last.batter_team_id, last.batter_parent_team_id), (3, 5));
    assert!(last.trajectory_model_applies);
    assert_eq!((last.re_288_start, last.re_288_end, last.re_288_val), (0, 0, 0));
    assert_eq!(engine.pitches[0].re_288_start, 500);
    assert_eq!(engine.counters.away_pitcher.num_pitch, 2);
    assert_eq!(engine.counters.home_pitcher.num_pitch, 0);
}

#[test]
fn engine_plays_and_settles() {
    let nobody: Vec<RosterEntry> = Vec::new();
    let table: Vec<RE288> = Vec::new();
    let context =
        Context { setup: fixed(), home_players: &nobody, away_players: &nobody, table: &table };
    let mut engine = Engine::new(Lineup::vacant(), Lineup::vacant());
    let empty = plate_appearance(HalfInning::Top, Vec::new());
    assert_eq!(engine.play(&empty, 0, &context), Ok(()));
    assert_eq!(engine.pitches.len(), 0);
    assert_eq!(engine.runners.base_value(), 2);
    assert!(!engine.counters.batter_responsible);
    let full = plate_appearance(HalfInning::Top, vec![pitch(0, 1, 0), pitch(1, 2, 0)]);
    assert_eq!(engine.play(&full, 1, &context), Ok(()));
    assert_eq!(engine.pitches.len(), 2);
    assert_eq!(engine.pitches[0].base_value_end, 2);
    assert_eq!(engine.pitches[1].base_value_start, 2);
    let mut broken = plate_appearance(HalfInning::Top, vec![pitch(0, 1, 0)]);
    broken.play_events[0].code = None;
    assert_eq!(engine.play(&broken, 2, &context), Err(ReconstructError::MissingField));
    let mut engine = Engine::new(Lineup::vacant(), Lineup::vacant());
    engine.settle(&empty);
    assert_eq!(engine.runners.len(), 1);
    assert!(!engine.counters.batter_responsible);
}
