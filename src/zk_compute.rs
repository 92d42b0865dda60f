use vstd::prelude::*;

use crate::types::StoredSecret;

verus! {

/// The value a guess at `position` stands for: `1` for any nonzero position.
pub open spec fn guess_of(position: u32) -> i32 {
    if position != 0 {
        1
    } else {
        0
    }
}

/// Result of comparing the first stored value owned by `target` with `guess`:
/// `1` when equal, `0` when not or when `target` owns none.
pub open spec fn comparison(target: bool, guess: i32, stored: Seq<StoredSecret>) -> i32
    decreases stored.len(),
{
    if stored.len() == 0 {
        0
    } else if stored[0].metadata.player == target {
        if stored[0].value == guess {
            1
        } else {
            0
        }
    } else {
        comparison(target, guess, stored.drop_first())
    }
}

/// The comparison routine the engine runs over its stored placements: whether
/// the placement of `target` equals the guess derived from `position`.
pub fn zk_compute(target: bool, position: u32, stored: &Vec<StoredSecret>) -> (r: i32)
    ensures
        r == comparison(target, guess_of(position), stored@),
{
    let guess: i32 = if position != 0 {
        1
    } else {
        0
    };
    let mut i: usize = 0;
    assert(stored@.subrange(0, stored@.len() as int) =~= stored@);
    while i < stored.len()
        invariant
            0 <= i <= stored@.len(),
            guess == guess_of(position),
            comparison(target, guess, stored@) == comparison(target, guess, stored@.subrange(i as int, stored@.len() as int)),
        decreases stored@.len() - i,
    {
        let ghost rest = stored@.subrange(i as int, stored@.len() as int);
        assert(rest.drop_first() =~= stored@.subrange(i + 1, stored@.len() as int));
        if stored[i].metadata.player == target {
            return if stored[i].value == guess {
                1
            } else {
                0
            };
        }
        i = i + 1;
    }
    0
}

} // verus!
