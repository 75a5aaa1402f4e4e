//! Lists of squares in the order of the board read rank by rank.

use vstd::prelude::*;
use crate::types::Square;

verus! {

/// The squares among the first `n` of the board, read rank by rank, whose
/// file and rank satisfy a predicate, in that order.
pub open spec fn select(pred: spec_fn(int, int) -> bool, n: int) -> Seq<Square>
    decreases n,
{
    if n <= 0 {
        Seq::empty()
    } else if pred((n - 1) % 8, (n - 1) / 8) {
        select(pred, n - 1).push(Square::at_index(n - 1))
    } else {
        select(pred, n - 1)
    }
}

/// Every square of a selection lies among the first `n`, satisfies the
/// predicate, and comes after the squares listed before it.
pub proof fn lemma_select_sound(pred: spec_fn(int, int) -> bool, n: int)
    requires
        0 <= n <= 64,
    ensures
        select(pred, n).len() <= n,
        forall|i: int|
            0 <= i < select(pred, n).len() ==> {
                let s = #[trigger] select(pred, n)[i];
                s.wf() && s.index() < n && pred(s.f(), s.r())
            },
        forall|i: int, j: int|
            0 <= i < j < select(pred, n).len() ==> (#[trigger] select(pred, n)[i]).index() < (
            #[trigger] select(pred, n)[j]).index(),
    decreases n,
{
    if n > 0 {
        lemma_select_sound(pred, n - 1);
    }
}

/// Every square among the first `n` that satisfies the predicate is in the selection.
pub proof fn lemma_select_complete(pred: spec_fn(int, int) -> bool, n: int, s: Square)
    requires
        0 <= n <= 64,
        s.wf(),
        s.index() < n,
        pred(s.f(), s.r()),
    ensures
        select(pred, n).contains(s),
    decreases n,
{
    if s.index() == n - 1 {
        assert(select(pred, n).last() == s);
    } else {
        lemma_select_complete(pred, n - 1, s);
        let prev = select(pred, n - 1);
        let i = choose|i: int| 0 <= i < prev.len() && #[trigger] prev[i] == s;
        assert(select(pred, n)[i] == s);
    }
}

/// A square of the board is in the selection over the whole board exactly
/// when it satisfies the predicate.
pub proof fn lemma_select_all(pred: spec_fn(int, int) -> bool, s: Square)
    ensures
        select(pred, 64).contains(s) <==> s.wf() && pred(s.f(), s.r()),
{
    lemma_select_sound(pred, 64);
    if s.wf() && pred(s.f(), s.r()) {
        lemma_select_complete(pred, 64, s);
    }
}

/// Two predicates that agree on every square of the board select the same squares.
pub proof fn lemma_select_same(
    p: spec_fn(int, int) -> bool,
    q: spec_fn(int, int) -> bool,
    n: int,
)
    requires
        0 <= n <= 64,
        forall|f: int, r: int| 0 <= f < 8 && 0 <= r < 8 ==> #[trigger] p(f, r) == q(f, r),
    ensures
        select(p, n) == select(q, n),
    decreases n,
{
    if n > 0 {
        lemma_select_same(p, q, n - 1);
    }
}

} // verus!
