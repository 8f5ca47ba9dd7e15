//! What holds of navigation whatever the image set and the commands are.

use crate::viewer::Position;
use vstd::arithmetic::div_mod::{lemma_mod_self_0, lemma_small_mod};
use vstd::prelude::*;

verus! {

/// A step forward from a valid position in a set that is not empty leads to
/// the following place, and from the last place to the first; the set is
/// unchanged and the new position is valid.
pub proof fn lemma_next_step(p: Position)
    requires
        p.well_formed(),
        p.paths.len() > 0,
    ensures
        p.next().paths == p.paths,
        p.next().index == if p.index + 1 == p.paths.len() {
            0
        } else {
            p.index + 1
        },
        p.next().well_formed(),
{
    let len = p.paths.len() as int;
    if p.index + 1 == len {
        lemma_mod_self_0(len);
    } else {
        lemma_small_mod((p.index + 1) as nat, len as nat);
    }
}

/// Where `count` steps forward lead, for a `count` up to the size of the set.
proof fn lemma_next_times_index(p: Position, count: nat)
    requires
        p.well_formed(),
        p.paths.len() > 0,
        count <= p.paths.len(),
    ensures
        p.next_times(count).paths == p.paths,
        p.next_times(count).well_formed(),
        p.next_times(count).index == if p.index + count < p.paths.len() {
            p.index + count
        } else {
            p.index + count - p.paths.len()
        },
    decreases count,
{
    if count > 0 {
        lemma_next_times_index(p, (count - 1) as nat);
        lemma_next_step(p.next_times((count - 1) as nat));
    }
}

/// In a set of N images, N steps forward from a valid position lead back to
/// it.
pub proof fn lemma_next_cycle(p: Position)
    requires
        p.well_formed(),
        p.paths.len() > 0,
    ensures
        p.next_times(p.paths.len()) == p,
{
    lemma_next_times_index(p, p.paths.len());
}

/// A step back undoes a step forward and a step forward undoes a step back,
/// at every valid position of a set that is not empty, the first and the last
/// included.
pub proof fn lemma_previous_inverts_next(p: Position)
    requires
        p.well_formed(),
        p.paths.len() > 0,
    ensures
        p.next().previous() == p,
        p.previous().next() == p,
        p.moved("next"@).moved("previous"@) == p,
        p.moved("previous"@).moved("next"@) == p,
{
    reveal_strlit("next");
    reveal_strlit("previous");
    assert("next"@ != "previous"@) by {
        assert("next"@.len() == 4);
        assert("previous"@.len() == 8);
    }
    lemma_next_step(p);
    lemma_next_step(p.previous());
}

/// In an empty set no sequence of commands changes anything, and there is no
/// current image after it.
pub proof fn lemma_empty_stays_empty(p: Position, directions: Seq<Seq<char>>)
    requires
        p.paths.len() == 0,
    ensures
        p.run(directions) == p,
        p.run(directions).current() is None,
    decreases directions.len(),
{
    if directions.len() > 0 {
        lemma_empty_stays_empty(p, directions.drop_last());
    }
}

/// No sequence of commands changes the image set, and a valid position stays
/// valid under it.
pub proof fn lemma_run_keeps_invariant(p: Position, directions: Seq<Seq<char>>)
    requires
        p.well_formed(),
    ensures
        p.run(directions).paths == p.paths,
        p.run(directions).well_formed(),
    decreases directions.len(),
{
    if directions.len() > 0 {
        lemma_run_keeps_invariant(p, directions.drop_last());
        let before = p.run(directions.drop_last());
        if before.paths.len() > 0 {
            lemma_next_step(before);
        }
    }
}

/// In a set of two or more images the command `"next"` leaves the current
/// place: whatever became of the image there, the next file to be read is at
/// another place.
pub proof fn lemma_next_leaves_current(p: Position)
    requires
        p.well_formed(),
        p.paths.len() >= 2,
    ensures
        p.moved("next"@).index != p.index,
        p.moved("next"@).index == p.next().index,
{
    reveal_strlit("next");
    reveal_strlit("previous");
    assert("next"@ != "previous"@) by {
        assert("next"@.len() == 4);
        assert("previous"@.len() == 8);
    }
    lemma_next_step(p);
}

} // verus!
