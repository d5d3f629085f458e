//! The selection cursor: "no selection" or an index into the catalog, moved cyclically.
use vstd::prelude::*;
use crate::session::Command;

verus! {

/// The cursor of a catalog of `n` documents is either absent or an index below `n`.
pub open spec fn in_range(sel: Option<int>, n: int) -> bool {
    match sel {
        Some(i) => 0 <= i < n,
        None => true,
    }
}

/// `next`: from no selection to the first document, else one further, wrapping to the first.
pub open spec fn next_sel(sel: Option<int>, n: int) -> Option<int> {
    match sel {
        Some(i) => Some((i + 1) % n),
        None => Some(0),
    }
}

/// `prev`: from no selection to the first document, else one back, wrapping to the last.
pub open spec fn prev_sel(sel: Option<int>, n: int) -> Option<int> {
    match sel {
        Some(i) => Some((i - 1) % n),
        None => Some(0),
    }
}

/// The cursor after a run of commands; only the two moves change it.
pub open spec fn apply_moves(sel: Option<int>, n: int, moves: Seq<Command>) -> Option<int>
    decreases moves.len(),
{
    if moves.len() == 0 {
        sel
    } else {
        let s = match moves.last() {
            Command::Next => next_sel(apply_moves(sel, n, moves.drop_last()), n),
            Command::Prev => prev_sel(apply_moves(sel, n, moves.drop_last()), n),
            _ => apply_moves(sel, n, moves.drop_last()),
        };
        s
    }
}

/// The cursor after `k` calls of `next`.
pub open spec fn next_times(sel: Option<int>, n: int, k: nat) -> Option<int>
    decreases k,
{
    if k == 0 {
        sel
    } else {
        next_sel(next_times(sel, n, (k - 1) as nat), n)
    }
}

/// On a non-empty catalog, any run of moves leaves the cursor absent or on a document.
pub proof fn lemma_moves_stay_in_range(sel: Option<int>, n: int, moves: Seq<Command>)
    requires
        n > 0,
        in_range(sel, n),
    ensures
        in_range(apply_moves(sel, n, moves), n),
    decreases moves.len(),
{
    if moves.len() > 0 {
        lemma_moves_stay_in_range(sel, n, moves.drop_last());
    }
}

proof fn lemma_next_times_index(i: int, n: int, k: nat)
    requires
        n > 0,
        0 <= i < n,
    ensures
        next_times(Some(i), n, k) == Some((i + k) % n),
    decreases k,
{
    if k > 0 {
        lemma_next_times_index(i, n, (k - 1) as nat);
        vstd::arithmetic::div_mod::lemma_add_mod_noop_right(1, i + k - 1, n);
        assert(((i + k - 1) % n + 1) % n == (i + k) % n);
    } else {
        vstd::arithmetic::div_mod::lemma_small_mod(i as nat, n as nat);
    }
}

/// Calling `next` as many times as there are documents brings the cursor back.
pub proof fn lemma_next_cycles(i: int, n: int)
    requires
        n > 0,
        0 <= i < n,
    ensures
        next_times(Some(i), n, n as nat) == Some(i),
{
    lemma_next_times_index(i, n, n as nat);
    vstd::arithmetic::div_mod::lemma_mod_add_multiples_vanish(i, n);
    vstd::arithmetic::div_mod::lemma_small_mod(i as nat, n as nat);
}

/// With more than one document, `prev` undoes `next`.
pub proof fn lemma_prev_undoes_next(i: int, n: int)
    requires
        n > 1,
        0 <= i < n,
    ensures
        prev_sel(next_sel(Some(i), n), n) == Some(i),
{
    if i + 1 < n {
        vstd::arithmetic::div_mod::lemma_small_mod((i + 1) as nat, n as nat);
        vstd::arithmetic::div_mod::lemma_small_mod(i as nat, n as nat);
    } else {
        vstd::arithmetic::div_mod::lemma_mod_self_0(n);
        vstd::arithmetic::div_mod::lemma_mod_add_multiples_vanish(-1, n);
        vstd::arithmetic::div_mod::lemma_small_mod((n - 1) as nat, n as nat);
    }
}

/// `prev` from the first document goes to the last one, index `n - 1`.
pub proof fn lemma_prev_from_first(n: int)
    requires
        n > 0,
    ensures
        prev_sel(Some(0), n) == Some(n - 1),
{
    vstd::arithmetic::div_mod::lemma_mod_add_multiples_vanish(-1, n);
    vstd::arithmetic::div_mod::lemma_small_mod((n - 1) as nat, n as nat);
}

/// After `unselect`, `next` selects the first document.
pub proof fn lemma_unselect_then_next(n: int)
    requires
        n > 0,
    ensures
        next_sel(None, n) == Some(0int),
{
}

} // verus!
