//! The runner-state tracker: who is on base, by each runner's last known
//! movement.
//!
//! The tracker is modelled as a sequence of movements that names no runner
//! twice. Recording a movement drops the runner's earlier entry and appends
//! the movement, so that the sequence lists the tracked runners in the order
//! in which they last moved.

use vstd::prelude::*;
use crate::boxscore::Pos;
use crate::play_by_play::{Base, RunnerMovement};
use crate::run_expectancy::BASES_LOADED;

verus! {

/// Whether a sequence of movements has one for the runner.
pub open spec fn tracks(store: Seq<RunnerMovement>, runner: u32) -> bool {
    exists|i: int| 0 <= i < store.len() && (#[trigger] store[i]).runner_id == runner
}

/// No runner has two entries.
pub open spec fn distinct(store: Seq<RunnerMovement>) -> bool {
    forall|i: int, j: int|
        0 <= i < j < store.len() ==> (#[trigger] store[i]).runner_id != (#[trigger] store[j]).runner_id
}

/// The last movement in the sequence for the runner.
pub open spec fn entry(store: Seq<RunnerMovement>, runner: u32) -> Option<RunnerMovement>
    decreases store.len(),
{
    if store.len() == 0 {
        None
    } else if store.last().runner_id == runner {
        Some(store.last())
    } else {
        entry(store.drop_last(), runner)
    }
}

/// The sequence with every entry for the runner taken out.
pub open spec fn without(store: Seq<RunnerMovement>, runner: u32) -> Seq<RunnerMovement>
    decreases store.len(),
{
    if store.len() == 0 {
        Seq::empty()
    } else if store.last().runner_id == runner {
        without(store.drop_last(), runner)
    } else {
        without(store.drop_last(), runner).push(store.last())
    }
}

/// The sequence after a movement is recorded: the movement replaces whatever
/// was known of its runner.
pub open spec fn upsert(store: Seq<RunnerMovement>, movement: RunnerMovement) -> Seq<RunnerMovement> {
    without(store, movement.runner_id).push(movement)
}

/// The sequence after each of `moves` is recorded, in order.
pub open spec fn merge(store: Seq<RunnerMovement>, moves: Seq<RunnerMovement>) -> Seq<RunnerMovement>
    decreases moves.len(),
{
    if moves.len() == 0 {
        store
    } else {
        upsert(merge(store, moves.drop_last()), moves.last())
    }
}

/// The sequence after each movement of `moves` that is tied to the event
/// index `index` is recorded, in order.
pub open spec fn merge_tied(
    store: Seq<RunnerMovement>,
    moves: Seq<RunnerMovement>,
    index: i8,
) -> Seq<RunnerMovement>
    decreases moves.len(),
{
    if moves.len() == 0 {
        store
    } else if moves.last().play_index == index {
        upsert(merge_tied(store, moves.drop_last(), index), moves.last())
    } else {
        merge_tied(store, moves.drop_last(), index)
    }
}

/// The movements of a plate appearance that belong to one event: those tied
/// to the event's index, one per runner, each runner's last in source order.
pub open spec fn event_movements(moves: Seq<RunnerMovement>, index: i8) -> Seq<RunnerMovement> {
    merge_tied(Seq::empty(), moves, index)
}

/// The tracked runners after an event: the event's movements are merged into
/// what was tracked before, and a runner that the event does not move stays
/// as it was.
pub open spec fn track(
    held: Seq<RunnerMovement>,
    moves: Seq<RunnerMovement>,
    index: i8,
) -> Seq<RunnerMovement> {
    merge(held, event_movements(moves, index))
}

/// The sequence with every runner taken out whose contribution to the
/// base-occupancy code is `occupancy`.
pub open spec fn without_base(store: Seq<RunnerMovement>, occupancy: u8) -> Seq<RunnerMovement>
    decreases store.len(),
{
    if store.len() == 0 {
        Seq::empty()
    } else if store.last().end_base_value == occupancy {
        without_base(store.drop_last(), occupancy)
    } else {
        without_base(store.drop_last(), occupancy).push(store.last())
    }
}

/// The sum of the base contributions of a sequence of movements.
pub open spec fn total_base(store: Seq<RunnerMovement>) -> nat
    decreases store.len(),
{
    if store.len() == 0 {
        0
    } else {
        total_base(store.drop_last()) + store.last().end_base_value as nat
    }
}

/// The sum of the outs of a sequence of movements.
pub open spec fn total_outs(store: Seq<RunnerMovement>) -> nat
    decreases store.len(),
{
    if store.len() == 0 {
        0
    } else {
        total_outs(store.drop_last()) + store.last().outs as nat
    }
}

/// The sum of the runs of a sequence of movements.
pub open spec fn total_runs(store: Seq<RunnerMovement>) -> nat
    decreases store.len(),
{
    if store.len() == 0 {
        0
    } else {
        total_runs(store.drop_last()) + store.last().runs as nat
    }
}

/// The base-occupancy code of a set of tracked runners: the sum of their
/// contributions, and `BASES_LOADED` where that sum is larger.
pub open spec fn occupancy_code(store: Seq<RunnerMovement>) -> u8 {
    if total_base(store) > BASES_LOADED {
        BASES_LOADED
    } else {
        total_base(store) as u8
    }
}

/// Who fielded the ball on an event: the fielder and position named by the
/// first movement, in source order, that is tied to the event and names a
/// fielding position.
pub open spec fn fielded_by(moves: Seq<RunnerMovement>, index: i8) -> (Option<u32>, Option<Pos>)
    decreases moves.len(),
{
    if moves.len() == 0 {
        (None, None)
    } else {
        let earlier = fielded_by(moves.drop_last(), index);
        if earlier.1 is Some {
            earlier
        } else if moves.last().play_index == index && moves.last().fielded_by_pos is Some {
            (moves.last().fielded_by_id, moves.last().fielded_by_pos)
        } else {
            (None, None)
        }
    }
}

/// A sum that saturates at `cap`.
pub open spec fn capped(total: nat, cap: u16) -> u16 {
    if total > cap {
        cap
    } else {
        total as u16
    }
}

/// The cap under which the sums of outs and of runs are computed: one more
/// than the largest count that a pitch record can hold.
pub const COUNT_CAP: u16 = 256;

proof fn lemma_take_push<T>(s: Seq<T>, i: int)
    requires
        0 <= i < s.len(),
    ensures
        s.take(i + 1).drop_last() == s.take(i),
        s.take(i + 1).last() == s[i],
        s.take(i + 1).len() == i + 1,
{
    assert(s.take(i + 1).drop_last() =~= s.take(i));
}

/// Taking a runner out leaves no entry for that runner, and keeps the
/// entries of every other runner.
proof fn lemma_without_tracks(store: Seq<RunnerMovement>, runner: u32, other: u32)
    ensures
        tracks(without(store, runner), other) <==> tracks(store, other) && other != runner,
    decreases store.len(),
{
    if store.len() > 0 {
        let init = store.drop_last();
        let last = store.last();
        lemma_without_tracks(init, runner, other);
        let w = without(store, runner);
        let wi = without(init, runner);
        if tracks(store, other) && other != runner {
            let i = choose|i: int| 0 <= i < store.len() && (#[trigger] store[i]).runner_id == other;
            if i < store.len() - 1 {
                assert(init[i].runner_id == other);
                let k = choose|k: int| 0 <= k < wi.len() && (#[trigger] wi[k]).runner_id == other;
                if last.runner_id != runner {
                    assert(w[k] == wi[k]);
                }
            } else {
                assert(w[w.len() - 1].runner_id == other);
            }
        }
        if tracks(w, other) && tracks(wi, other) {
            let i = choose|i: int| 0 <= i < init.len() && (#[trigger] init[i]).runner_id == other;
            assert(store[i].runner_id == other);
        }
    }
}

proof fn lemma_distinct_push(store: Seq<RunnerMovement>, movement: RunnerMovement)
    ensures
        distinct(store.push(movement)) <==> distinct(store) && !tracks(store, movement.runner_id),
{
    let p = store.push(movement);
    if distinct(p) {
        assert forall|i: int, j: int| 0 <= i < j < store.len() implies (#[trigger] store[i]).runner_id
            != (#[trigger] store[j]).runner_id by {
            assert(p[i] == store[i] && p[j] == store[j]);
        }
        if tracks(store, movement.runner_id) {
            let i = choose|i: int|
                0 <= i < store.len() && (#[trigger] store[i]).runner_id == movement.runner_id;
            assert(p[i] == store[i] && p[store.len() as int] == movement);
        }
    }
    if distinct(store) && !tracks(store, movement.runner_id) {
        assert forall|i: int, j: int| 0 <= i < j < p.len() implies (#[trigger] p[i]).runner_id != (
        #[trigger] p[j]).runner_id by {
            assert(p[i] == store[i]);
        }
    }
}

/// Taking a runner out of a sequence that names no runner twice leaves such
/// a sequence.
proof fn lemma_without_distinct(store: Seq<RunnerMovement>, runner: u32)
    requires
        distinct(store),
    ensures
        distinct(without(store, runner)),
    decreases store.len(),
{
    if store.len() > 0 {
        let init = store.drop_last();
        let last = store.last();
        assert(store =~= init.push(last));
        lemma_distinct_push(init, last);
        lemma_without_distinct(init, runner);
        if last.runner_id != runner {
            lemma_without_tracks(init, runner, last.runner_id);
            lemma_distinct_push(without(init, runner), last);
        }
    }
}

/// Recording a movement keeps the sequence free of repeated runners.
proof fn lemma_upsert_distinct(store: Seq<RunnerMovement>, movement: RunnerMovement)
    requires
        distinct(store),
    ensures
        distinct(upsert(store, movement)),
{
    lemma_without_distinct(store, movement.runner_id);
    lemma_without_tracks(store, movement.runner_id, movement.runner_id);
    lemma_distinct_push(without(store, movement.runner_id), movement);
}

proof fn lemma_merge_distinct(store: Seq<RunnerMovement>, moves: Seq<RunnerMovement>)
    requires
        distinct(store),
    ensures
        distinct(merge(store, moves)),
    decreases moves.len(),
{
    if moves.len() > 0 {
        lemma_merge_distinct(store, moves.drop_last());
        lemma_upsert_distinct(merge(store, moves.drop_last()), moves.last());
    }
}

proof fn lemma_merge_tied_distinct(store: Seq<RunnerMovement>, moves: Seq<RunnerMovement>, index: i8)
    requires
        distinct(store),
    ensures
        distinct(merge_tied(store, moves, index)),
    decreases moves.len(),
{
    if moves.len() > 0 {
        lemma_merge_tied_distinct(store, moves.drop_last(), index);
        if moves.last().play_index == index {
            lemma_upsert_distinct(merge_tied(store, moves.drop_last(), index), moves.last());
        }
    }
}

/// Tracking an event keeps the tracked runners free of repetition.
pub(crate) proof fn lemma_track_distinct(held: Seq<RunnerMovement>, moves: Seq<RunnerMovement>, index: i8)
    requires
        distinct(held),
    ensures
        distinct(track(held, moves, index)),
        distinct(event_movements(moves, index)),
{
    lemma_merge_tied_distinct(Seq::empty(), moves, index);
    lemma_merge_distinct(held, event_movements(moves, index));
}

proof fn lemma_without_base_tracks(store: Seq<RunnerMovement>, occupancy: u8, runner: u32)
    ensures
        tracks(without_base(store, occupancy), runner) ==> tracks(store, runner),
    decreases store.len(),
{
    if store.len() > 0 {
        let init = store.drop_last();
        let last = store.last();
        lemma_without_base_tracks(init, occupancy, runner);
        let w = without_base(store, occupancy);
        let wi = without_base(init, occupancy);
        if tracks(w, runner) && tracks(wi, runner) {
            let i = choose|i: int| 0 <= i < init.len() && (#[trigger] init[i]).runner_id == runner;
            assert(store[i].runner_id == runner);
        }
    }
}

/// Taking the runners of one base out keeps the sequence free of repeated
/// runners.
pub(crate) proof fn lemma_without_base_distinct(store: Seq<RunnerMovement>, occupancy: u8)
    requires
        distinct(store),
    ensures
        distinct(without_base(store, occupancy)),
    decreases store.len(),
{
    if store.len() > 0 {
        let init = store.drop_last();
        let last = store.last();
        assert(store =~= init.push(last));
        lemma_distinct_push(init, last);
        lemma_without_base_distinct(init, occupancy);
        if last.end_base_value != occupancy {
            lemma_without_base_tracks(init, occupancy, last.runner_id);
            lemma_distinct_push(without_base(init, occupancy), last);
        }
    }
}

proof fn lemma_without_push(store: Seq<RunnerMovement>, movement: RunnerMovement, runner: u32)
    ensures
        without(store.push(movement), runner) == if movement.runner_id == runner {
            without(store, runner)
        } else {
            without(store, runner).push(movement)
        },
{
    assert(store.push(movement).drop_last() =~= store);
}

/// Taking out a runner who has no entry changes nothing.
proof fn lemma_without_absent(store: Seq<RunnerMovement>, runner: u32)
    requires
        !tracks(store, runner),
    ensures
        without(store, runner) == store,
    decreases store.len(),
{
    if store.len() > 0 {
        let init = store.drop_last();
        assert forall|i: int| 0 <= i < init.len() implies (#[trigger] init[i]).runner_id != runner by {
            assert(store[i].runner_id != runner);
        }
        assert(store[store.len() - 1].runner_id != runner);
        lemma_without_absent(init, runner);
        assert(init.push(store.last()) =~= store);
    } else {
        assert(store =~= Seq::empty());
    }
}

proof fn lemma_without_commutes(store: Seq<RunnerMovement>, p: u32, q: u32)
    ensures
        without(without(store, p), q) == without(without(store, q), p),
    decreases store.len(),
{
    if store.len() > 0 {
        let init = store.drop_last();
        let last = store.last();
        lemma_without_commutes(init, p, q);
        lemma_without_push(without(init, p), last, q);
        lemma_without_push(without(init, q), last, p);
    }
}

proof fn lemma_without_upsert(store: Seq<RunnerMovement>, movement: RunnerMovement, runner: u32)
    ensures
        without(upsert(store, movement), runner) == if movement.runner_id == runner {
            without(store, runner)
        } else {
            upsert(without(store, runner), movement)
        },
{
    lemma_without_push(without(store, movement.runner_id), movement, runner);
    if movement.runner_id == runner {
        lemma_without_tracks(store, runner, runner);
        lemma_without_absent(without(store, runner), runner);
    } else {
        lemma_without_commutes(store, movement.runner_id, runner);
    }
}

proof fn lemma_remove_shape(moves: Seq<RunnerMovement>, i: int)
    requires
        0 <= i < moves.len(),
    ensures
        i == moves.len() - 1 ==> moves.remove(i) == moves.drop_last(),
        i < moves.len() - 1 ==> moves.remove(i).drop_last() == moves.drop_last().remove(i)
            && moves.remove(i).last() == moves.last() && moves.remove(i).len() == moves.len() - 1,
{
    if i == moves.len() - 1 {
        assert(moves.remove(i) =~= moves.drop_last());
    } else {
        assert(moves.remove(i).drop_last() =~= moves.drop_last().remove(i));
    }
}

/// Apart from the runner's own entry, the result of merging does not depend
/// on one of that runner's movements.
proof fn lemma_merge_tied_without(
    store: Seq<RunnerMovement>,
    moves: Seq<RunnerMovement>,
    index: i8,
    i: int,
)
    requires
        0 <= i < moves.len(),
    ensures
        without(merge_tied(store, moves, index), moves[i].runner_id) == without(
            merge_tied(store, moves.remove(i), index),
            moves[i].runner_id,
        ),
    decreases moves.len(),
{
    let runner = moves[i].runner_id;
    let init = moves.drop_last();
    let last = moves.last();
    lemma_remove_shape(moves, i);
    if i == moves.len() - 1 {
        if last.play_index == index {
            lemma_without_upsert(merge_tied(store, init, index), last, runner);
        }
    } else {
        lemma_merge_tied_without(store, init, index, i);
        if last.play_index == index {
            lemma_without_upsert(merge_tied(store, init, index), last, runner);
            lemma_without_upsert(merge_tied(store, init.remove(i), index), last, runner);
        }
    }
}

/// A movement that a later movement of the same runner and the same event
/// follows has no part in the result of merging.
proof fn lemma_merge_tied_later_wins(
    store: Seq<RunnerMovement>,
    moves: Seq<RunnerMovement>,
    index: i8,
    i: int,
    j: int,
)
    requires
        0 <= i < j < moves.len(),
        moves[i].runner_id == moves[j].runner_id,
        moves[j].play_index == index,
    ensures
        merge_tied(store, moves, index) == merge_tied(store, moves.remove(i), index),
    decreases moves.len(),
{
    let init = moves.drop_last();
    lemma_remove_shape(moves, i);
    if j < moves.len() - 1 {
        lemma_merge_tied_later_wins(store, init, index, i, j);
    } else {
        lemma_merge_tied_without(store, init, index, i);
    }
}

/// Of two movements of one runner that are tied to one event, only the later
/// in source order contributes: the event's movements, and the tracked
/// runners after the event, are what they would be had the earlier movement
/// never been listed.
pub proof fn law_later_movement_wins(
    held: Seq<RunnerMovement>,
    moves: Seq<RunnerMovement>,
    index: i8,
    earlier: int,
    later: int,
)
    requires
        0 <= earlier < later < moves.len(),
        moves[earlier].runner_id == moves[later].runner_id,
        moves[earlier].play_index == index,
        moves[later].play_index == index,
    ensures
        event_movements(moves, index) == event_movements(moves.remove(earlier), index),
        track(held, moves, index) == track(held, moves.remove(earlier), index),
{
    lemma_merge_tied_later_wins(Seq::empty(), moves, index, earlier, later);
}

proof fn lemma_entry_without(store: Seq<RunnerMovement>, runner: u32, other: u32)
    ensures
        entry(without(store, runner), other) == if other == runner {
            None
        } else {
            entry(store, other)
        },
    decreases store.len(),
{
    if store.len() > 0 {
        lemma_entry_without(store.drop_last(), runner, other);
        lemma_without_push(store.drop_last(), store.last(), runner);
        if store.last().runner_id != runner {
            assert(without(store, runner).drop_last() =~= without(store.drop_last(), runner));
        }
    }
}

/// After a movement is recorded it is what the tracker knows of its runner,
/// and what the tracker knows of every other runner is unchanged.
proof fn lemma_entry_upsert(store: Seq<RunnerMovement>, movement: RunnerMovement, other: u32)
    ensures
        entry(upsert(store, movement), other) == if other == movement.runner_id {
            Some(movement)
        } else {
            entry(store, other)
        },
{
    lemma_entry_without(store, movement.runner_id, other);
    let w = without(store, movement.runner_id);
    assert(w.push(movement).drop_last() =~= w);
}

/// A runner whom an event does not move stays as tracked before the event,
/// and a runner whom it moves is tracked by the last of the event's
/// movements for that runner.
pub proof fn law_track_keeps_and_overwrites(
    held: Seq<RunnerMovement>,
    moves: Seq<RunnerMovement>,
    index: i8,
    runner: u32,
)
    ensures
        entry(track(held, moves, index), runner) == match entry(
            event_movements(moves, index),
            runner,
        ) {
            Some(movement) => Some(movement),
            None => entry(held, runner),
        },
{
    lemma_entry_merge(held, event_movements(moves, index), runner);
}

proof fn lemma_entry_merge(store: Seq<RunnerMovement>, moves: Seq<RunnerMovement>, runner: u32)
    ensures
        entry(merge(store, moves), runner) == match entry(moves, runner) {
            Some(movement) => Some(movement),
            None => entry(store, runner),
        },
    decreases moves.len(),
{
    if moves.len() > 0 {
        let init = moves.drop_last();
        lemma_entry_merge(store, init, runner);
        lemma_entry_upsert(merge(store, init), moves.last(), runner);
    }
}

/// The persistent store of the tracker: each runner's last known movement.
pub struct RunnerState {
    entries: Vec<RunnerMovement>,
}

impl View for RunnerState {
    type V = Seq<RunnerMovement>;

    closed spec fn view(&self) -> Seq<RunnerMovement> {
        self.entries@
    }
}

/// The movements of `moves` that belong to the event with the given index,
/// one per runner.
pub fn collect(moves: &Vec<RunnerMovement>, index: i8) -> (moved: Vec<RunnerMovement>)
    ensures
        moved@ == event_movements(moves@, index),
        distinct(moved@),
{
    let mut moved: Vec<RunnerMovement> = Vec::new();
    let mut i: usize = 0;
    while i < moves.len()
        invariant
            i <= moves.len(),
            moved@ == event_movements(moves@.take(i as int), index),
        decreases moves.len() - i,
    {
        let movement: RunnerMovement = moves[i];
        proof {
            lemma_take_push(moves@, i as int);
        }
        if movement.play_index == index {
            record(&mut moved, movement);
        }
        i = i + 1;
    }
    proof {
        assert(moves@.take(i as int) =~= moves@);
        lemma_merge_tied_distinct(Seq::empty(), moves@, index);
    }
    moved
}

/// Records one movement in a list of entries.
fn record(entries: &mut Vec<RunnerMovement>, movement: RunnerMovement)
    ensures
        final(entries)@ == upsert(old(entries)@, movement),
{
    let mut kept: Vec<RunnerMovement> = Vec::new();
    let mut i: usize = 0;
    while i < entries.len()
        invariant
            i <= entries.len(),
            kept@ == without(entries@.take(i as int), movement.runner_id),
        decreases entries.len() - i,
    {
        let e: RunnerMovement = entries[i];
        proof {
            lemma_take_push(entries@, i as int);
        }
        if e.runner_id != movement.runner_id {
            kept.push(e);
        }
        i = i + 1;
    }
    proof {
        assert(entries@.take(i as int) =~= entries@);
    }
    kept.push(movement);
    *entries = kept;
}

/// The sum of the outs of a list of movements, saturating at `COUNT_CAP`.
pub fn outs_on(moved: &Vec<RunnerMovement>) -> (outs: u16)
    ensures
        outs == capped(total_outs(moved@), COUNT_CAP),
{
    let mut sum: u16 = 0;
    let mut i: usize = 0;
    while i < moved.len()
        invariant
            i <= moved.len(),
            sum == capped(total_outs(moved@.take(i as int)), COUNT_CAP),
        decreases moved.len() - i,
    {
        proof {
            lemma_take_push(moved@, i as int);
        }
        let next: u16 = sum + moved[i].outs as u16;
        sum = if next > COUNT_CAP { COUNT_CAP } else { next };
        i = i + 1;
    }
    proof {
        assert(moved@.take(i as int) =~= moved@);
    }
    sum
}

/// The sum of the runs of a list of movements, saturating at `COUNT_CAP`.
pub fn runs_on(moved: &Vec<RunnerMovement>) -> (runs: u16)
    ensures
        runs == capped(total_runs(moved@), COUNT_CAP),
{
    let mut sum: u16 = 0;
    let mut i: usize = 0;
    while i < moved.len()
        invariant
            i <= moved.len(),
            sum == capped(total_runs(moved@.take(i as int)), COUNT_CAP),
        decreases moved.len() - i,
    {
        proof {
            lemma_take_push(moved@, i as int);
        }
        let next: u16 = sum + moved[i].runs as u16;
        sum = if next > COUNT_CAP { COUNT_CAP } else { next };
        i = i + 1;
    }
    proof {
        assert(moved@.take(i as int) =~= moved@);
    }
    sum
}

/// Who fielded the ball on the event with the given index.
pub fn fielder_on(moves: &Vec<RunnerMovement>, index: i8) -> (fielder: (Option<u32>, Option<Pos>))
    ensures
        fielder == fielded_by(moves@, index),
{
    let mut i: usize = 0;
    while i < moves.len()
        invariant
            i <= moves.len(),
            fielded_by(moves@.take(i as int), index) == (None::<u32>, None::<Pos>),
        decreases moves.len() - i,
    {
        let movement: RunnerMovement = moves[i];
        proof {
            lemma_take_push(moves@, i as int);
        }
        if movement.play_index == index && movement.fielded_by_pos.is_some() {
            proof {
                lemma_fielded_by_settled(moves@, index, i as int + 1);
            }
            return (movement.fielded_by_id, movement.fielded_by_pos);
        }
        i = i + 1;
    }
    proof {
        assert(moves@.take(i as int) =~= moves@);
    }
    (None, None)
}

/// Once a prefix of the movements names a fielding position, the rest of
/// the movements do not change who fielded the ball.
proof fn lemma_fielded_by_settled(moves: Seq<RunnerMovement>, index: i8, n: int)
    requires
        0 <= n <= moves.len(),
        fielded_by(moves.take(n), index).1 is Some,
    ensures
        fielded_by(moves, index) == fielded_by(moves.take(n), index),
    decreases moves.len() - n,
{
    if n == moves.len() {
        assert(moves.take(n) =~= moves);
    } else {
        lemma_take_push(moves, n);
        lemma_fielded_by_settled(moves, index, n + 1);
    }
}

impl RunnerState {
    /// A tracker with nobody on base.
    pub fn new() -> (state: RunnerState)
        ensures
            state@ == Seq::<RunnerMovement>::empty(),
    {
        RunnerState { entries: Vec::new() }
    }

    /// Forgets every runner, as at the change of the half-inning.
    pub fn clear(&mut self)
        ensures
            final(self)@ == Seq::<RunnerMovement>::empty(),
    {
        self.entries = Vec::new();
    }

    /// The number of runners that are tracked.
    pub fn len(&self) -> (n: usize)
        ensures
            n == self@.len(),
    {
        self.entries.len()
    }

    /// What is known of a runner.
    pub fn get(&self, runner: u32) -> (found: Option<RunnerMovement>)
        ensures
            found == entry(self@, runner),
    {
        let mut i: usize = self.entries.len();
        proof {
            assert(self.entries@.take(i as int) =~= self.entries@);
        }
        while i > 0
            invariant
                i <= self.entries.len(),
                entry(self.entries@, runner) == entry(self.entries@.take(i as int), runner),
            decreases i,
        {
            let e: RunnerMovement = self.entries[i - 1];
            proof {
                lemma_take_push(self.entries@, i - 1);
            }
            if e.runner_id == runner {
                return Some(e);
            }
            i = i - 1;
        }
        None
    }

    /// Applies the runner movements of one event: those of `moves` that are
    /// tied to `index`, one per runner, are merged into the tracked runners.
    /// Returns the event's movements.
    pub fn apply(&mut self, moves: &Vec<RunnerMovement>, index: i8) -> (moved: Vec<RunnerMovement>)
        ensures
            moved@ == event_movements(moves@, index),
            final(self)@ == track(old(self)@, moves@, index),
            distinct(old(self)@) ==> distinct(final(self)@),
    {
        let moved: Vec<RunnerMovement> = collect(moves, index);
        let mut i: usize = 0;
        while i < moved.len()
            invariant
                i <= moved.len(),
                self.entries@ == merge(old(self).entries@, moved@.take(i as int)),
            decreases moved.len() - i,
        {
            proof {
                lemma_take_push(moved@, i as int);
            }
            record(&mut self.entries, moved[i]);
            i = i + 1;
        }
        proof {
            assert(moved@.take(i as int) =~= moved@);
            if distinct(old(self)@) {
                lemma_track_distinct(old(self)@, moves@, index);
            }
        }
        moved
    }

    /// Takes out the runner on `base`, if one is tracked there.
    pub fn remove_base(&mut self, base: Base)
        ensures
            final(self)@ == without_base(old(self)@, base.occupancy()),
            distinct(old(self)@) ==> distinct(final(self)@),
    {
        let occupancy: u8 = base.occupancy();
        let mut kept: Vec<RunnerMovement> = Vec::new();
        let mut i: usize = 0;
        while i < self.entries.len()
            invariant
                i <= self.entries.len(),
                kept@ == without_base(self.entries@.take(i as int), occupancy),
            decreases self.entries.len() - i,
        {
            let e: RunnerMovement = self.entries[i];
            proof {
                lemma_take_push(self.entries@, i as int);
            }
            if e.end_base_value != occupancy {
                kept.push(e);
            }
            i = i + 1;
        }
        proof {
            assert(self.entries@.take(i as int) =~= self.entries@);
            if distinct(old(self)@) {
                lemma_without_base_distinct(old(self)@, occupancy);
            }
        }
        self.entries = kept;
    }

    /// The base-occupancy code of the tracked runners.
    pub fn base_value(&self) -> (code: u8)
        ensures
            code == occupancy_code(self@),
            code <= BASES_LOADED,
    {
        let mut sum: u16 = 0;
        let mut i: usize = 0;
        while i < self.entries.len()
            invariant
                i <= self.entries.len(),
                sum == capped(total_base(self.entries@.take(i as int)), BASES_LOADED as u16),
            decreases self.entries.len() - i,
        {
            proof {
                lemma_take_push(self.entries@, i as int);
            }
            let next: u16 = sum + self.entries[i].end_base_value as u16;
            sum = if next > BASES_LOADED as u16 { BASES_LOADED as u16 } else { next };
            i = i + 1;
        }
        proof {
            assert(self.entries@.take(i as int) =~= self.entries@);
        }
        sum as u8
    }
}

} // verus!
