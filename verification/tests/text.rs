use pitch_engine::play_by_play::Trajectory;
use pitch_engine::text::{
    chars_of, chars_of_description, contains, contains_phrase, impute_trajectory, is_bunt,
    is_bunt_description,
};

fn chars(text: &str) -> Vec<char> {
    text.chars().collect()
}

fn described(text: &str) -> Option<String> {
    Some(text.to_string())
}

#[test]
fn chars_of_gives_the_characters() {
    assert_eq!(chars_of("abc"), vec!['a', 'b', 'c']);
    assert_eq!(chars_of(""), Vec::new());
    assert_eq!(chars_of("J\u{e9}"), vec!['J', '\u{e9}']);
    assert_eq!(chars_of_description(&None), Vec::new());
    assert_eq!(chars_of_description(&described("ab")), vec!['a', 'b']);
}

#[test]
fn contains_finds_a_phrase_anywhere() {
    assert!(contains(&chars("grounds out"), &chars("grounds")));
    assert!(contains(&chars("grounds out"), &chars("out")));
    assert!(contains(&chars("grounds out"), &chars("ds o")));
    assert!(contains(&chars("grounds out"), &chars("grounds out")));
    assert!(contains(&chars("aab"), &chars("ab")));
}

#[test]
fn contains_rejects_what_is_not_there() {
    assert!(!contains(&chars("grounds out"), &chars("ground ball")));
    assert!(!contains(&chars("out"), &chars("outs")));
    assert!(!contains(&chars(""), &chars("a")));
    assert!(!contains(&chars("Grounds"), &chars("grounds")));
    assert!(!contains(&chars("abab"), &chars("aba b")));
}

#[test]
fn contains_finds_the_empty_phrase() {
    assert!(contains(&chars("abc"), &chars("")));
    assert!(contains(&chars(""), &chars("")));
}

#[test]
fn contains_phrase_agrees_with_the_standard_search() {
    let texts = vec!["", "pop fly", "a pop fly to left", "pops", "fl", "J\u{e9}r\u{e9}my pops out"];
    let phrases = vec!["pop fly", "pops out", "", "fly", "\u{e9}"];
    for text in &texts {
        for phrase in &phrases {
            assert_eq!(contains_phrase(&chars(text), phrase), text.contains(phrase));
        }
    }
}

#[test]
fn trajectory_is_read_off_each_phrase() {
    assert_eq!(impute_trajectory(&described("hits a line drive to left")), Trajectory::LineDrive);
    assert_eq!(impute_trajectory(&described("lines out to short")), Trajectory::LineDrive);
    assert_eq!(impute_trajectory(&described("flies out to center")), Trajectory::FlyBall);
    assert_eq!(impute_trajectory(&described("doubles on a fly ball")), Trajectory::FlyBall);
    assert_eq!(impute_trajectory(&described("singles on a ground ball")), Trajectory::GroundBall);
    assert_eq!(impute_trajectory(&described("grounds out softly")), Trajectory::GroundBall);
    assert_eq!(impute_trajectory(&described("singles on a pop fly")), Trajectory::PopUp);
    assert_eq!(impute_trajectory(&described("pops out to first")), Trajectory::PopUp);
}

#[test]
fn trajectory_is_unknown_without_a_phrase() {
    assert_eq!(impute_trajectory(&described("reaches on an error")), Trajectory::Unknown);
    assert_eq!(impute_trajectory(&described("")), Trajectory::Unknown);
    assert_eq!(impute_trajectory(&described("Line Drive")), Trajectory::Unknown);
    assert_eq!(impute_trajectory(&None), Trajectory::Unknown);
}

#[test]
fn first_phrase_in_the_list_decides() {
    assert_eq!(
        impute_trajectory(&described("pops out after a ground ball and a line drive")),
        Trajectory::LineDrive
    );
    assert_eq!(impute_trajectory(&described("pop fly before he flies out")), Trajectory::FlyBall);
    assert_eq!(impute_trajectory(&described("pops out on a ground ball")), Trajectory::GroundBall);
}

#[test]
fn bunt_is_read_off_the_description() {
    assert!(is_bunt_description(&described("In play, sacrifice bunt")));
    assert!(is_bunt_description(&described("bunts")));
    assert!(!is_bunt_description(&described("In play, out(s)")));
    assert!(!is_bunt_description(&described("Bunt")));
    assert!(!is_bunt_description(&None));
}

#[test]
fn bunt_trajectories_are_three() {
    assert!(is_bunt(Trajectory::BuntGroundBall));
    assert!(is_bunt(Trajectory::BuntLineDrive));
    assert!(is_bunt(Trajectory::BuntPopUp));
    assert!(!is_bunt(Trajectory::GroundBall));
    assert!(!is_bunt(Trajectory::LineDrive));
    assert!(!is_bunt(Trajectory::PopUp));
    assert!(!is_bunt(Trajectory::FlyBall));
    assert!(!is_bunt(Trajectory::Unknown));
}
