//! The buffer in which the pass notes the nodes that it has fused into
//! others, for their removal once the region has been walked.

use vstd::prelude::*;

verus! {

/// A small vector of `smallvec`, of positions.
#[verifier::external_body]
pub struct Buffer {
    items: smallvec::SmallVec<[usize; 8]>,
}

/// The positions that the buffer holds, in the order in which they were
/// noted.
pub uninterp spec fn noted(buffer: Buffer) -> Seq<usize>;

/// `smallvec::SmallVec::new`: a buffer that holds nothing.
#[verifier::external_body]
pub(crate) fn buffer_new() -> (r: Buffer)
    ensures
        noted(r) == Seq::<usize>::empty(),
{
    Buffer { items: smallvec::SmallVec::new() }
}

/// `smallvec::SmallVec::push`: the item is put after those that the
/// buffer holds.
#[verifier::external_body]
pub(crate) fn buffer_push(buffer: &mut Buffer, position: usize)
    ensures
        noted(*final(buffer)) == noted(*old(buffer)).push(position),
{
    buffer.items.push(position);
}

/// `smallvec::SmallVec::len`: how many items the buffer holds.
#[verifier::external_body]
pub(crate) fn buffer_len(buffer: &Buffer) -> (r: usize)
    ensures
        r == noted(*buffer).len(),
{
    buffer.items.len()
}

/// Indexing a `smallvec::SmallVec`: the item at the position `at`. It
/// panics past the end, which the contract leaves out.
#[verifier::external_body]
pub(crate) fn buffer_at(buffer: &Buffer, at: usize) -> (r: usize)
    requires
        at < noted(*buffer).len(),
    ensures
        r == noted(*buffer)[at as int],
{
    buffer.items[at]
}

/// Whether the position `p` is among the positions `marks`.
pub open spec fn is_noted(marks: Seq<usize>, p: int) -> bool {
    exists|t: int| 0 <= t < marks.len() && #[trigger] marks[t] == p
}

/// Whether the positions `marks` are in ascending order and below `bound`.
pub open spec fn ascending(marks: Seq<usize>, bound: int) -> bool {
    &&& forall|a: int, b: int| 0 <= a < b < marks.len() ==> marks[a] < marks[b]
    &&& forall|a: int| 0 <= a < marks.len() ==> marks[a] < bound
}

/// The first `k` items of `s` without those at the positions `marks`.
pub open spec fn kept<T>(s: Seq<T>, marks: Seq<usize>, k: nat) -> Seq<T>
    decreases k,
{
    if k == 0 || k > s.len() {
        Seq::empty()
    } else if is_noted(marks, k - 1) {
        kept(s, marks, (k - 1) as nat)
    } else {
        kept(s, marks, (k - 1) as nat).push(s[k - 1])
    }
}

/// What is kept of the first `k` items depends on those items and on the
/// marks below `k` alone.
pub proof fn lemma_kept_same<T>(s: Seq<T>, marks: Seq<usize>, t: Seq<T>, others: Seq<usize>, k: nat)
    requires
        k <= s.len(),
        k <= t.len(),
        forall|p: int| 0 <= p < k ==> #[trigger] s[p] == t[p],
        forall|p: int| 0 <= p < k ==> #[trigger] is_noted(marks, p) == is_noted(others, p),
    ensures
        kept(s, marks, k) == kept(t, others, k),
    decreases k,
{
    if k > 0 {
        lemma_kept_same(s, marks, t, others, (k - 1) as nat);
    }
}

/// Nothing is kept of items that are all marked.
pub proof fn lemma_kept_skips<T>(s: Seq<T>, marks: Seq<usize>, from: nat, to: nat)
    requires
        from <= to <= s.len(),
        forall|p: int| from <= p < to ==> #[trigger] is_noted(marks, p),
    ensures
        kept(s, marks, to) == kept(s, marks, from),
    decreases to,
{
    if from < to {
        lemma_kept_skips(s, marks, from, (to - 1) as nat);
    }
}

/// After the item at `i` was changed and the positions from `i + 1` up to
/// `j` were marked, what is kept below `j` is what was kept below `i`,
/// and the item at `i`.
pub proof fn lemma_kept_run<T>(
    old_items: Seq<T>,
    old_marks: Seq<usize>,
    items: Seq<T>,
    marks: Seq<usize>,
    i: nat,
    j: nat,
)
    requires
        i < j <= items.len(),
        old_items.len() == items.len(),
        ascending(old_marks, i as int),
        marks.len() == old_marks.len() + (j - i - 1),
        forall|t: int| 0 <= t < old_marks.len() ==> marks[t] == old_marks[t],
        forall|t: int|
            old_marks.len() <= t < marks.len() ==> marks[t] == i + 1 + (t - old_marks.len()),
        forall|p: int| 0 <= p < i ==> items[p] == old_items[p],
    ensures
        kept(items, marks, j) == kept(old_items, old_marks, i).push(items[i as int]),
        ascending(marks, j as int),
{
    assert forall|p: int| 0 <= p < i implies #[trigger] is_noted(marks, p) == is_noted(
        old_marks,
        p,
    ) by {
        if is_noted(old_marks, p) {
            let t = choose|t: int| 0 <= t < old_marks.len() && #[trigger] old_marks[t] == p;
            assert(marks[t] == p);
        }
        if is_noted(marks, p) {
            let t = choose|t: int| 0 <= t < marks.len() && #[trigger] marks[t] == p;
            assert(t < old_marks.len());
            assert(old_marks[t] == p);
        }
    }
    lemma_kept_same(items, marks, old_items, old_marks, i);
    assert(!is_noted(marks, i as int)) by {
        if is_noted(marks, i as int) {
            let t = choose|t: int| 0 <= t < marks.len() && #[trigger] marks[t] == i;
            if t < old_marks.len() {
                assert(old_marks[t] < i);
            }
        }
    }
    assert forall|p: int| i + 1 <= p < j implies #[trigger] is_noted(marks, p) by {
        let t = old_marks.len() + (p - i - 1);
        assert(marks[t] == p);
    }
    lemma_kept_skips(items, marks, (i + 1) as nat, j);
}

/// A position is marked where the next mark not yet passed is that
/// position: the marks are in ascending order, those before `seen` are
/// below `at`, and the others are not.
pub proof fn lemma_next_mark(marks: Seq<usize>, seen: int, at: int)
    requires
        0 <= seen <= marks.len(),
        forall|a: int, b: int| 0 <= a < b < marks.len() ==> marks[a] < marks[b],
        forall|t: int| 0 <= t < seen ==> marks[t] < at,
        forall|t: int| seen <= t < marks.len() ==> marks[t] >= at,
    ensures
        is_noted(marks, at) == (seen < marks.len() && marks[seen] == at),
{
    if is_noted(marks, at) {
        let t = choose|t: int| 0 <= t < marks.len() && #[trigger] marks[t] == at;
        assert(t >= seen);
        if t > seen {
            assert(marks[seen] < marks[t]);
        }
    }
}

} // verus!
