//! Keyword matching on the free-text descriptions of plays.

use vstd::prelude::*;
use crate::play_by_play::Trajectory;

verus! {

/// Whether `phrase` stands in `text` at the position `at`.
pub open spec fn occurs_at(text: Seq<char>, phrase: Seq<char>, at: int) -> bool {
    0 <= at && at + phrase.len() <= text.len() && text.subrange(at, at + phrase.len()) == phrase
}

/// Whether `phrase` occurs somewhere in `text`.
pub open spec fn mentions(text: Seq<char>, phrase: Seq<char>) -> bool {
    exists|at: int| occurs_at(text, phrase, at)
}

/// The characters of a string.
pub fn chars_of(text: &str) -> (chars: Vec<char>)
    ensures
        chars@ == text@,
{
    let mut chars: Vec<char> = Vec::new();
    for c in it: text.chars()
        invariant
            it.seq() == text@,
            chars@ == it.seq().take(it.index() as int),
    {
        chars.push(c);
    }
    chars
}


/// The text of an optional description: nothing where there is none.
pub open spec fn text_of(description: Option<String>) -> Seq<char> {
    match description {
        Some(text) => text@,
        None => Seq::empty(),
    }
}

/// The characters of an optional description.
pub fn chars_of_description(description: &Option<String>) -> (chars: Vec<char>)
    ensures
        chars@ == text_of(*description),
{
    match description {
        Some(text) => chars_of(text.as_str()),
        None => Vec::new(),
    }
}

fn matches_at(text: &Vec<char>, phrase: &Vec<char>, at: usize) -> (found: bool)
    requires
        at + phrase.len() <= text.len(),
    ensures
        found == occurs_at(text@, phrase@, at as int),
{
    let mut k: usize = 0;
    while k < phrase.len()
        invariant
            k <= phrase.len(),
            at + phrase.len() <= text.len(),
            forall|j: int| 0 <= j < k ==> text@[at + j] == phrase@[j],
        decreases phrase.len() - k,
    {
        if text[at + k] != phrase[k] {
            proof {
                let window = text@.subrange(at as int, at + phrase.len());
                assert(window[k as int] == text@[at + k]);
            }
            return false;
        }
        k = k + 1;
    }
    proof {
        assert(text@.subrange(at as int, at + phrase.len()) =~= phrase@);
    }
    true
}

/// Whether a phrase occurs in a text, both given by their characters.
pub fn contains(text: &Vec<char>, phrase: &Vec<char>) -> (found: bool)
    ensures
        found == mentions(text@, phrase@),
{
    if phrase.len() > text.len() {
        return false;
    }
    if phrase.len() == 0 {
        proof {
            assert(text@.subrange(0, 0) =~= phrase@);
            assert(occurs_at(text@, phrase@, 0));
        }
        return true;
    }
    let last: usize = text.len() - phrase.len();
    let mut at: usize = 0;
    while at <= last
        invariant
            0 < phrase.len() <= text.len(),
            last == text.len() - phrase.len(),
            at <= last + 1,
            forall|a: int| 0 <= a < at ==> !occurs_at(text@, phrase@, a),
        decreases last + 1 - at,
    {
        if matches_at(text, phrase, at) {
            return true;
        }
        at = at + 1;
    }
    false
}

/// Whether a phrase occurs in a text.
pub fn contains_phrase(text: &Vec<char>, phrase: &str) -> (found: bool)
    ensures
        found == mentions(text@, phrase@),
{
    let wanted: Vec<char> = chars_of(phrase);
    contains(text, &wanted)
}

/// The trajectory that the description of a plate appearance suggests for a
/// ball put in play: the first of the known phrases that the description
/// holds decides, and `Trajectory::Unknown` stands where it holds none.
pub open spec fn imputed_trajectory(description: Seq<char>) -> Trajectory {
    if mentions(description, "line drive"@) {
        Trajectory::LineDrive
    } else if mentions(description, "lines out"@) {
        Trajectory::LineDrive
    } else if mentions(description, "flies out"@) {
        Trajectory::FlyBall
    } else if mentions(description, "fly ball"@) {
        Trajectory::FlyBall
    } else if mentions(description, "ground ball"@) {
        Trajectory::GroundBall
    } else if mentions(description, "grounds out"@) {
        Trajectory::GroundBall
    } else if mentions(description, "pop fly"@) {
        Trajectory::PopUp
    } else if mentions(description, "pops out"@) {
        Trajectory::PopUp
    } else {
        Trajectory::Unknown
    }
}

/// Reads a trajectory off the description of a plate appearance.
pub fn impute_trajectory(description: &Option<String>) -> (trajectory: Trajectory)
    ensures
        trajectory == imputed_trajectory(text_of(*description)),
{
    let text: Vec<char> = chars_of_description(description);
    if contains_phrase(&text, "line drive") {
        Trajectory::LineDrive
    } else if contains_phrase(&text, "lines out") {
        Trajectory::LineDrive
    } else if contains_phrase(&text, "flies out") {
        Trajectory::FlyBall
    } else if contains_phrase(&text, "fly ball") {
        Trajectory::FlyBall
    } else if contains_phrase(&text, "ground ball") {
        Trajectory::GroundBall
    } else if contains_phrase(&text, "grounds out") {
        Trajectory::GroundBall
    } else if contains_phrase(&text, "pop fly") {
        Trajectory::PopUp
    } else if contains_phrase(&text, "pops out") {
        Trajectory::PopUp
    } else {
        Trajectory::Unknown
    }
}

/// Whether the description of a pitch speaks of a bunt.
pub open spec fn describes_bunt(description: Seq<char>) -> bool {
    mentions(description, "bunt"@)
}

/// Reads off the description of a pitch whether it was a bunt.
pub fn is_bunt_description(description: &Option<String>) -> (bunt: bool)
    ensures
        bunt == describes_bunt(text_of(*description)),
{
    let text: Vec<char> = chars_of_description(description);
    contains_phrase(&text, "bunt")
}

/// Whether a trajectory is one of the three bunt variants.
pub open spec fn spec_is_bunt(trajectory: Trajectory) -> bool {
    trajectory == Trajectory::BuntGroundBall || trajectory == Trajectory::BuntLineDrive
        || trajectory == Trajectory::BuntPopUp
}

#[verifier::when_used_as_spec(spec_is_bunt)]
pub fn is_bunt(trajectory: Trajectory) -> (bunt: bool)
    ensures
        bunt == spec_is_bunt(trajectory),
{
    match trajectory {
        Trajectory::BuntGroundBall | Trajectory::BuntLineDrive | Trajectory::BuntPopUp => true,
        _ => false,
    }
}

} // verus!
