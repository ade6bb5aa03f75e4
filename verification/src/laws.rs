//! What holds of views and of the sequences that the iterators yield, whatever
//! the view.

use vstd::prelude::*;
use vstd::arithmetic::div_mod::{lemma_fundamental_div_mod, lemma_fundamental_div_mod_converse};
use crate::layout::SliceView;
use crate::record::Bound;
use crate::sequence::{
    group_count, lemma_groups_cover, lemma_short_group, ChunksView, RChunksView, WindowsView,
};

verus! {

/// Slicing with a range that covers all elements gives the view itself: the
/// same record, the same number of elements, the same first address.
pub proof fn lemma_full_range_is_identity(v: SliceView, start: Bound, end: Bound)
    requires
        start.first_index() == Some(0nat),
        end.end_index(v.len) == Some(v.len),
    ensures
        v.slice(start, end) == Some(v),
{
    assert(v.subslice(0, v.len) == v);
}

/// The unbounded range covers all elements.
pub proof fn lemma_unbounded_range_is_identity(v: SliceView)
    ensures
        v.slice(Bound::Unbounded, Bound::Unbounded) == Some(v),
{
    lemma_full_range_is_identity(v, Bound::Unbounded, Bound::Unbounded);
}

/// For `a <= b <= len`, the elements from `a` up to `b` are `b - a` elements,
/// and the one at `i` among them is the one at `a + i` in the view.
pub proof fn lemma_slice_elements(v: SliceView, a: usize, b: usize, i: nat)
    requires
        a <= b <= v.len,
        i < b - a,
    ensures
        v.slice(Bound::Included(a), Bound::Excluded(b)) is Some,
        v.slice(Bound::Included(a), Bound::Excluded(b)).unwrap().len == b - a,
        v.slice(Bound::Included(a), Bound::Excluded(b)).unwrap().record == v.record,
        v.slice(Bound::Included(a), Bound::Excluded(b)).unwrap().element(i) == v.element(
            (a + i) as nat,
        ),
{
    let s = v.stride() as int;
    assert((a + i) * s == a * s + i * s) by (nonlinear_arith);
}

/// Splitting at `mid` gives the elements before `mid` and the elements from
/// `mid` on, as slicing does.
pub proof fn lemma_split_at_is_two_slices(v: SliceView, mid: usize)
    requires
        mid <= v.len,
    ensures
        v.split_at(mid as nat) == Some(
            (
                v.slice(Bound::Included(0), Bound::Excluded(mid)).unwrap(),
                v.slice(Bound::Included(mid), Bound::Unbounded).unwrap(),
            ),
        ),
        v.slice(Bound::Included(0), Bound::Excluded(mid)) is Some,
        v.slice(Bound::Included(mid), Bound::Unbounded) is Some,
{
}

/// The two halves of a view share no element: the first ends where the second
/// starts, the first starts where the view starts, and the second ends where
/// the view ends.
pub proof fn lemma_split_halves_are_adjacent(v: SliceView, mid: nat)
    requires
        mid <= v.len,
    ensures
        v.split_at(mid) is Some,
        v.split_at(mid).unwrap().0.data == v.data,
        v.split_at(mid).unwrap().0.address(mid) == v.split_at(mid).unwrap().1.data,
        v.split_at(mid).unwrap().1.address((v.len - mid) as nat) == v.address(v.len),
        v.split_at(mid).unwrap().0.len + v.split_at(mid).unwrap().1.len == v.len,
{
    let s = v.stride() as int;
    assert((mid + (v.len - mid)) * s == mid * s + (v.len - mid) * s) by (nonlinear_arith);
}

/// Slicing fails where the range ends beyond the view, and succeeds where it
/// ends exactly at the end of the view and does not start after it.
pub proof fn lemma_slice_end_bound(v: SliceView, start: Bound, end: usize)
    ensures
        end > v.len ==> v.slice(start, Bound::Excluded(end)) is None,
        end == v.len && start.first_index() is Some && start.first_index().unwrap() <= end
            ==> v.slice(start, Bound::Excluded(end)) is Some,
{
}

/// The number of groups is the quotient rounded up.
pub proof fn lemma_group_count_is_ceiling(len: nat, size: nat)
    requires
        size > 0,
    ensures
        group_count(len, size) == (len + size - 1) / (size as int),
        group_count(len, size) * size >= len,
        len > 0 ==> (group_count(len, size) - 1) * size < len,
{
    let q = len as int / size as int;
    let r = len as int % size as int;
    lemma_fundamental_div_mod(len as int, size as int);
    lemma_groups_cover(len, size, group_count(len, size));
    if r == 0 {
        assert(len + size - 1 == q * size + (size - 1)) by (nonlinear_arith)
            requires
                len == size * q,
        ;
        lemma_fundamental_div_mod_converse(len + size - 1, size as int, q, size - 1);
    } else {
        assert(len + size - 1 == (q + 1) * size + (r - 1)) by (nonlinear_arith)
            requires
                len == size * q + r,
        ;
        lemma_fundamental_div_mod_converse(len + size - 1, size as int, q + 1, r - 1);
    }
    if len > 0 {
        lemma_short_group(len, size);
    }
}

/// A chunk iterator over `L` elements with chunk size `C` yields `L / C`
/// chunks, rounded up. Each has `C` elements, but for the last, which has
/// `L - C * ((L - 1) / C)`.
pub proof fn lemma_chunks_count_and_lengths(c: ChunksView)
    requires
        c.chunk_size > 0,
    ensures
        c.items().len() == (c.slice.len + c.chunk_size - 1) / (c.chunk_size as int),
        forall|i: int|
            0 <= i < c.items().len() - 1 ==> (#[trigger] c.items()[i]).len == c.chunk_size,
        c.slice.len > 0 ==> c.items().len() > 0 && c.items().last().len == c.slice.len
            - c.chunk_size * ((c.slice.len - 1) / (c.chunk_size as int)),
{
    let len = c.slice.len;
    let size = c.chunk_size;
    lemma_group_count_is_ceiling(len, size);
    if len > 0 {
        lemma_short_group(len, size);
        let count = group_count(len, size);
        assert forall|i: int| 0 <= i < count - 1 implies (#[trigger] c.items()[i]).len == size by {
            assert((i + 1) * size <= (count - 1) * size) by (nonlinear_arith)
                requires
                    0 <= i < count - 1,
                    size > 0,
            ;
            assert((i + 1) * size == i * size + size) by (nonlinear_arith);
        }
    }
}

/// A chunk iterator that counts from the back yields as many chunks, of the
/// same lengths; its last chunk starts where the view starts.
pub proof fn lemma_rchunks_count_and_lengths(c: RChunksView)
    requires
        c.chunk_size > 0,
    ensures
        c.items().len() == (c.slice.len + c.chunk_size - 1) / (c.chunk_size as int),
        forall|i: int|
            0 <= i < c.items().len() - 1 ==> (#[trigger] c.items()[i]).len == c.chunk_size,
        c.slice.len > 0 ==> c.items().len() > 0 && c.items().last().len == c.slice.len
            - c.chunk_size * ((c.slice.len - 1) / (c.chunk_size as int)) && c.items().last().data
            == c.slice.data,
{
    let len = c.slice.len;
    let size = c.chunk_size;
    lemma_group_count_is_ceiling(len, size);
    if len > 0 {
        lemma_short_group(len, size);
        let count = group_count(len, size);
        assert forall|i: int| 0 <= i < count - 1 implies (#[trigger] c.items()[i]).len == size by {
            assert((i + 1) * size <= (count - 1) * size) by (nonlinear_arith)
                requires
                    0 <= i < count - 1,
                    size > 0,
            ;
            assert((i + 1) * size == i * size + size) by (nonlinear_arith);
        }
        assert(0 * c.slice.stride() == 0) by (nonlinear_arith);
    }
}

/// A window iterator over `L` elements with window size `W <= L` yields
/// `L - W + 1` windows of `W` elements each; with `W > L` it yields none.
pub proof fn lemma_windows_count_and_lengths(w: WindowsView)
    ensures
        w.window_size <= w.slice.len ==> w.items().len() == w.slice.len - w.window_size + 1,
        w.window_size > w.slice.len ==> w.items().len() == 0,
        forall|i: int| 0 <= i < w.items().len() ==> (#[trigger] w.items()[i]).len == w.window_size,
{
}

/// No two chunks share an element: each chunk ends where the next one starts,
/// the first starts where the view starts, and the last ends where it ends.
pub proof fn lemma_chunks_tile_the_view(c: ChunksView, i: int)
    requires
        c.chunk_size > 0,
        0 <= i < c.items().len(),
    ensures
        c.items()[i].record == c.slice.record,
        c.items()[i].data == c.slice.address((i * c.chunk_size) as nat),
        c.items()[i].address(c.items()[i].len) == if i + 1 < c.items().len() {
            c.items()[i + 1].data
        } else {
            c.slice.address(c.slice.len)
        },
{
    let len = c.slice.len;
    let size = c.chunk_size;
    let s = c.slice.stride() as int;
    let count = group_count(len, size);
    lemma_groups_cover(len, size, 0);
    lemma_short_group(len, size);
    assert(i * size <= (count - 1) * size) by (nonlinear_arith)
        requires
            0 <= i <= count - 1,
            size > 0,
    ;
    let n = c.items()[i].len as int;
    assert((i * size + n) * s == (i * size) * s + n * s) by (nonlinear_arith);
    if i + 1 < count {
        assert((i + 1) * size <= (count - 1) * size) by (nonlinear_arith)
            requires
                i + 1 <= count - 1,
                size > 0,
        ;
        assert((i + 1) * size == i * size + size) by (nonlinear_arith);
    }
}

} // verus!
