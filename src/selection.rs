//! Selection arithmetic of the menu: how the highlighted index moves.
use vstd::prelude::*;

verus! {

/// A request to move the highlighted item.
#[derive(PartialEq, Eq, Structural, Clone, Copy, Debug)]
pub enum Move {
    Up,
    Down,
}

/// Index after moving down among `len` items: past the last item it wraps to the
/// first; with nothing selected the first item is selected.
pub open spec fn index_after_down(sel: Option<usize>, len: usize) -> Option<usize> {
    match sel {
        Some(c) => if c + 1 >= len {
            Some(0usize)
        } else {
            Some((c + 1) as usize)
        },
        None => Some(0usize),
    }
}

/// Index after moving up among `len` items: from the first item it goes to `len`,
/// one past the last item; with nothing selected the first item is selected.
pub open spec fn index_after_up(sel: Option<usize>, len: usize) -> Option<usize> {
    match sel {
        Some(c) => if c == 0 {
            Some(len)
        } else {
            Some((c - 1) as usize)
        },
        None => Some(0usize),
    }
}

pub open spec fn index_after(sel: Option<usize>, len: usize, m: Move) -> Option<usize> {
    match m {
        Move::Up => index_after_up(sel, len),
        Move::Down => index_after_down(sel, len),
    }
}

/// Index after a whole sequence of moves, applied first to last.
pub open spec fn index_after_all(sel: Option<usize>, len: usize, moves: Seq<Move>) -> Option<usize>
    decreases moves.len(),
{
    if moves.len() == 0 {
        sel
    } else {
        index_after(index_after_all(sel, len, moves.drop_last()), len, moves.last())
    }
}

/// An index that moves can lead to: none, or at most `len`.
pub open spec fn reachable(sel: Option<usize>, len: usize) -> bool {
    match sel {
        Some(c) => c <= len,
        None => true,
    }
}

pub fn select_down(sel: Option<usize>, len: usize) -> (r: Option<usize>)
    requires
        len >= 1,
    ensures
        r == index_after_down(sel, len),
{
    match sel {
        Some(c) => if c >= len - 1 {
            Some(0)
        } else {
            Some(c + 1)
        },
        None => Some(0),
    }
}

pub fn select_up(sel: Option<usize>, len: usize) -> (r: Option<usize>)
    ensures
        r == index_after_up(sel, len),
{
    match sel {
        Some(c) => if c == 0 {
            Some(len)
        } else {
            Some(c - 1)
        },
        None => Some(0),
    }
}

/// From any reachable index, every sequence of moves passes only through
/// reachable indices, each determined by the one before: down wraps from the last
/// item to the first, up goes from the first item to `len`.
pub proof fn lemma_moves_stay_reachable(sel: Option<usize>, len: usize, moves: Seq<Move>)
    requires
        len >= 1,
        reachable(sel, len),
    ensures
        forall|k: int|
            0 <= k <= moves.len() ==> #[trigger] reachable(
                index_after_all(sel, len, moves.take(k)),
                len,
            ),
        forall|k: int|
            0 <= k < moves.len() ==> #[trigger] index_after_all(sel, len, moves.take(k + 1))
                == index_after(index_after_all(sel, len, moves.take(k)), len, moves[k]),
    decreases moves.len(),
{
    assert forall|k: int| 0 <= k < moves.len() implies #[trigger] index_after_all(
        sel,
        len,
        moves.take(k + 1),
    ) == index_after(index_after_all(sel, len, moves.take(k)), len, moves[k]) by {
        assert(moves.take(k + 1).drop_last() =~= moves.take(k));
    }
    if moves.len() > 0 {
        let init = moves.drop_last();
        lemma_moves_stay_reachable(sel, len, init);
        assert forall|k: int| 0 <= k <= moves.len() implies #[trigger] reachable(
            index_after_all(sel, len, moves.take(k)),
            len,
        ) by {
            if k < moves.len() {
                assert(moves.take(k) =~= init.take(k));
            } else {
                assert(moves.take(k) =~= moves);
                assert(init.take(init.len() as int) =~= init);
                assert(reachable(index_after_all(sel, len, init.take(init.len() as int)), len));
            }
        }
    } else {
        assert(moves.take(0) =~= moves);
    }
}

} // verus!
