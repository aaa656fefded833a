use pitch_engine::boxscore::{batting_order, holds, Lineup, Pos, RosterEntry};
use pitch_engine::play_by_play::{Code, PitchData, PitchOutcome};

fn lineup() -> Lineup {
    Lineup {
        catcher: Some(1),
        first_base: Some(2),
        second_base: Some(3),
        short_stop: Some(4),
        third_base: Some(5),
        left_field: Some(6),
        center_field: Some(7),
        right_field: Some(8),
        pitcher: Some(9),
        designated_hitter: Some(10),
    }
}

#[test]
fn vacant_lineup_has_nobody() {
    let l = Lineup::vacant();
    assert_eq!(l.catcher, None);
    assert_eq!(l.pitcher, None);
    assert_eq!(l.designated_hitter, None);
    assert_eq!(l.position_of(0), Pos::Bench);
}

#[test]
fn holds_compares_the_occupant() {
    assert!(holds(Some(3), 3));
    assert!(!holds(Some(3), 4));
    assert!(!holds(None, 0));
}

#[test]
fn assign_overwrites_the_slot_of_the_position() {
    let base = lineup();
    assert_eq!(base.assign(Pos::Catcher, 50), Lineup { catcher: Some(50), ..base });
    assert_eq!(base.assign(Pos::FirstBase, 50), Lineup { first_base: Some(50), ..base });
    assert_eq!(base.assign(Pos::SecondBase, 50), Lineup { second_base: Some(50), ..base });
    assert_eq!(base.assign(Pos::ShortStop, 50), Lineup { short_stop: Some(50), ..base });
    assert_eq!(base.assign(Pos::ThirdBase, 50), Lineup { third_base: Some(50), ..base });
    assert_eq!(base.assign(Pos::LeftField, 50), Lineup { left_field: Some(50), ..base });
    assert_eq!(base.assign(Pos::CenterField, 50), Lineup { center_field: Some(50), ..base });
    assert_eq!(base.assign(Pos::RightField, 50), Lineup { right_field: Some(50), ..base });
    assert_eq!(
        base.assign(Pos::DesignatedHitter, 50),
        Lineup { designated_hitter: Some(50), ..base }
    );
}

#[test]
fn assign_leaves_other_positions_alone() {
    let base = lineup();
    assert_eq!(base.assign(Pos::Pitcher, 50), base);
    assert_eq!(base.assign(Pos::Bench, 50), base);
    assert_eq!(base.assign(Pos::PinchHitter, 50), base);
    assert_eq!(base.assign(Pos::PinchRunner, 50), base);
}

#[test]
fn position_of_finds_each_slot() {
    let l = lineup();
    assert_eq!(l.position_of(1), Pos::Catcher);
    assert_eq!(l.position_of(2), Pos::FirstBase);
    assert_eq!(l.position_of(3), Pos::SecondBase);
    assert_eq!(l.position_of(4), Pos::ShortStop);
    assert_eq!(l.position_of(5), Pos::ThirdBase);
    assert_eq!(l.position_of(6), Pos::LeftField);
    assert_eq!(l.position_of(7), Pos::CenterField);
    assert_eq!(l.position_of(8), Pos::RightField);
    assert_eq!(l.position_of(9), Pos::Pitcher);
    assert_eq!(l.position_of(10), Pos::DesignatedHitter);
    assert_eq!(l.position_of(11), Pos::Bench);
}

#[test]
fn position_of_takes_the_first_slot_in_order() {
    let mut l = lineup();
    l.right_field = Some(7);
    assert_eq!(l.position_of(7), Pos::RightField);
    l.short_stop = Some(5);
    assert_eq!(l.position_of(5), Pos::ShortStop);
    l.designated_hitter = Some(9);
    assert_eq!(l.position_of(9), Pos::Pitcher);
}

#[test]
fn batting_order_is_that_of_the_last_entry() {
    let roster = vec![
        RosterEntry { id: 1, batting_order: Some(100) },
        RosterEntry { id: 2, batting_order: None },
        RosterEntry { id: 1, batting_order: Some(101) },
        RosterEntry { id: 3, batting_order: Some(300) },
    ];
    assert_eq!(batting_order(&roster, 1), Some(101));
    assert_eq!(batting_order(&roster, 2), None);
    assert_eq!(batting_order(&roster, 3), Some(300));
    assert_eq!(batting_order(&roster, 4), None);
    assert_eq!(batting_order(&Vec::new(), 1), None);
}

#[test]
fn every_code_has_its_outcome() {
    let balls =
        [Code::BD, Code::B, Code::P, Code::I, Code::H, Code::VS, Code::VC, Code::VB, Code::VP, Code::V];
    for code in balls {
        assert_eq!(code.outcome(), PitchOutcome::Ball);
    }
    for code in [Code::C, Code::A, Code::AC, Code::AB] {
        assert_eq!(code.outcome(), PitchOutcome::CalledStrike);
    }
    for code in [Code::S, Code::W, Code::Q, Code::M] {
        assert_eq!(code.outcome(), PitchOutcome::SwingingStrike);
    }
    for code in [Code::F, Code::R, Code::L] {
        assert_eq!(code.outcome(), PitchOutcome::Foul);
    }
    for code in [Code::T, Code::O] {
        assert_eq!(code.outcome(), PitchOutcome::FoulTip);
    }
    for code in [Code::D, Code::E, Code::X, Code::J, Code::Y, Code::Z] {
        assert_eq!(code.outcome(), PitchOutcome::InPlay);
    }
    for code in [Code::N, Code::PSO, Code::PO] {
        assert_eq!(code.outcome(), PitchOutcome::NoDecision);
    }
}

#[test]
fn every_outcome_has_its_swing() {
    let table = [
        (PitchOutcome::Ball, 0, None, 0),
        (PitchOutcome::CalledStrike, 0, None, 0),
        (PitchOutcome::SwingingStrike, 1, Some(1), 0),
        (PitchOutcome::Foul, 1, Some(0), 1),
        (PitchOutcome::FoulTip, 1, Some(1), 1),
        (PitchOutcome::InPlay, 1, Some(0), 0),
        (PitchOutcome::NoDecision, 0, None, 0),
    ];
    for (outcome, swing, miss, foul) in table {
        assert_eq!(outcome.swing(), swing);
        assert_eq!(outcome.swing_and_miss(), miss);
        assert_eq!(outcome.foul(), foul);
    }
}

#[test]
fn pitch_data_is_complete_with_all_twelve() {
    let all = PitchData {
        x0: true,
        y0: true,
        z0: true,
        v_x0: true,
        v_y0: true,
        v_z0: true,
        a_x: true,
        a_y: true,
        a_z: true,
        p_x: true,
        p_z: true,
        extension: true,
    };
    assert!(all.is_complete());
    assert!(!PitchData { x0: false, ..all }.is_complete());
    assert!(!PitchData { y0: false, ..all }.is_complete());
    assert!(!PitchData { z0: false, ..all }.is_complete());
    assert!(!PitchData { v_x0: false, ..all }.is_complete());
    assert!(!PitchData { v_y0: false, ..all }.is_complete());
    assert!(!PitchData { v_z0: false, ..all }.is_complete());
    assert!(!PitchData { a_x: false, ..all }.is_complete());
    assert!(!PitchData { a_y: false, ..all }.is_complete());
    assert!(!PitchData { a_z: false, ..all }.is_complete());
    assert!(!PitchData { p_x: false, ..all }.is_complete());
    assert!(!PitchData { p_z: false, ..all }.is_complete());
    assert!(!PitchData { extension: false, ..all }.is_complete());
}
