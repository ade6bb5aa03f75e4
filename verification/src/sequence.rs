use vstd::prelude::*;
use vstd::arithmetic::div_mod::{lemma_fundamental_div_mod, lemma_fundamental_div_mod_converse};
use crate::layout::{lemma_subslice_subslice, SliceView};

verus! {

/// The number of groups of `size` elements that cover `len` elements, the last
/// of which may be shorter: `len / size`, rounded up.
pub open spec fn group_count(len: nat, size: nat) -> nat
    recommends
        size > 0,
{
    if len % size == 0 {
        len / size
    } else {
        len / size + 1
    }
}

/// The length of the short group at the far end: the remainder of `len` by
/// `size`, or `size` where that is zero.
pub open spec fn short_group_len(len: nat, size: nat) -> nat
    recommends
        size > 0,
        len > 0,
{
    if len % size == 0 {
        size
    } else {
        len % size
    }
}

/// The smaller of two numbers.
pub open spec fn min_nat(a: nat, b: nat) -> nat {
    if a <= b {
        a
    } else {
        b
    }
}

/// Taking `n` whole groups away leaves `n` groups fewer and the same remainder.
pub proof fn lemma_groups_removed(len: nat, size: nat, n: nat)
    requires
        size > 0,
        n * size <= len,
    ensures
        ((len - n * size) as nat) % size == len % size,
        ((len - n * size) as nat) / size == len / size - n,
        group_count((len - n * size) as nat, size) == group_count(len, size) - n,
        n <= len / size,
{
    let q = len as int / size as int;
    let r = len as int % size as int;
    lemma_fundamental_div_mod(len as int, size as int);
    assert(len - n * size == (q - n) * size + r) by (nonlinear_arith)
        requires
            len == size * q + r,
    ;
    lemma_fundamental_div_mod_converse(len - n * size, size as int, q - n, r);
    assert(n <= q) by (nonlinear_arith)
        requires
            len - n * size == (q - n) * size + r,
            0 <= len - n * size,
            0 <= r < size,
    ;
}

/// `n` groups reach the end exactly when there are no more than `n` groups.
pub proof fn lemma_groups_cover(len: nat, size: nat, n: nat)
    requires
        size > 0,
    ensures
        n * size >= len <==> n >= group_count(len, size),
{
    let q = len as int / size as int;
    let r = len as int % size as int;
    lemma_fundamental_div_mod(len as int, size as int);
    if n * size >= len {
        assert(n >= group_count(len, size)) by (nonlinear_arith)
            requires
                len == size * q + r,
                0 <= r < size,
                n * size >= len,
                size > 0,
                group_count(len, size) == if r == 0 {
                    q
                } else {
                    q + 1
                },
        ;
    } else {
        assert(n < group_count(len, size)) by (nonlinear_arith)
            requires
                len == size * q + r,
                0 <= r < size,
                n * size < len,
                size > 0,
                group_count(len, size) == if r == 0 {
                    q
                } else {
                    q + 1
                },
        ;
    }
}

/// The short group is what is left after all the other groups.
pub proof fn lemma_short_group(len: nat, size: nat)
    requires
        size > 0,
        len > 0,
    ensures
        0 < short_group_len(len, size) <= size,
        short_group_len(len, size) <= len,
        group_count(len, size) >= 1,
        len - short_group_len(len, size) == (group_count(len, size) - 1) * size,
        short_group_len(len, size) == len - size * ((len - 1) as nat / size),
{
    let q = len as int / size as int;
    let r = len as int % size as int;
    lemma_fundamental_div_mod(len as int, size as int);
    if r == 0 {
        assert(q >= 1) by (nonlinear_arith)
            requires
                len == size * q,
                len > 0,
                size > 0,
        ;
        assert(len - size == (q - 1) * size) by (nonlinear_arith)
            requires
                len == size * q,
        ;
        assert(len - 1 == (q - 1) * size + (size - 1)) by (nonlinear_arith)
            requires
                len == size * q,
        ;
        lemma_fundamental_div_mod_converse(len - 1, size as int, q - 1, size - 1);
        assert(size * (q - 1) == (q - 1) * size) by (nonlinear_arith);
    } else {
        assert(q >= 0) by (nonlinear_arith)
            requires
                len == size * q + r,
                0 <= r < size,
                len > 0,
        ;
        assert(len - r == q * size) by (nonlinear_arith)
            requires
                len == size * q + r,
        ;
        assert(len - 1 == q * size + (r - 1)) by (nonlinear_arith)
            requires
                len == size * q + r,
        ;
        lemma_fundamental_div_mod_converse(len - 1, size as int, q, r - 1);
        assert(size * q == q * size) by (nonlinear_arith);
    }
}

/// What a chunk iterator still has to yield: the view that remains and the
/// length of a full chunk. Chunks are counted from the front of the view.
pub struct ChunksView {
    pub slice: SliceView,
    pub chunk_size: nat,
}

impl ChunksView {
    /// Whether the view is well formed and the chunk size is not zero.
    pub open spec fn wf(self) -> bool {
        self.slice.wf() && self.chunk_size > 0
    }

    /// The number of chunks.
    pub open spec fn count(self) -> nat {
        group_count(self.slice.len, self.chunk_size)
    }

    /// The chunk at position `i` from the front: `chunk_size` elements from
    /// index `i * chunk_size`, or as many as are left.
    pub open spec fn chunk(self, i: nat) -> SliceView {
        self.slice.subslice(
            i * self.chunk_size,
            min_nat(self.chunk_size, (self.slice.len - i * self.chunk_size) as nat),
        )
    }

    /// All chunks, front to back.
    pub open spec fn items(self) -> Seq<SliceView> {
        Seq::new(self.count(), |i: int| self.chunk(i as nat))
    }

    /// The state after `n` whole chunks have left from the front.
    pub open spec fn skip_front(self, n: nat) -> ChunksView {
        ChunksView {
            slice: self.slice.subslice(
                n * self.chunk_size,
                (self.slice.len - n * self.chunk_size) as nat,
            ),
            chunk_size: self.chunk_size,
        }
    }

    /// The state after the elements from index `keep` on have left.
    pub open spec fn keep_front(self, keep: nat) -> ChunksView {
        ChunksView {
            slice: self.slice.truncate((self.slice.len - keep) as nat),
            chunk_size: self.chunk_size,
        }
    }
}

/// A chunk iterator with no elements has no chunks, and one with elements has
/// at least one.
pub proof fn lemma_chunks_empty(c: ChunksView)
    requires
        c.chunk_size > 0,
    ensures
        c.slice.len == 0 <==> c.count() == 0,
        c.items().len() == c.count(),
{
    lemma_groups_cover(c.slice.len, c.chunk_size, 0);
}

/// After `n` chunks have left from the front, the chunks that remain are the
/// old ones from position `n` on.
pub proof fn lemma_chunks_skip_front(c: ChunksView, n: nat)
    requires
        c.chunk_size > 0,
        n * c.chunk_size <= c.slice.len,
    ensures
        n <= c.count(),
        c.skip_front(n).items() =~= c.items().skip(n as int),
{
    let size = c.chunk_size;
    let len = c.slice.len;
    lemma_groups_removed(len, size, n);
    let d = c.skip_front(n);
    assert forall|i: int| 0 <= i < d.count() implies #[trigger] d.items()[i] == c.items().skip(
        n as int,
    )[i] by {
        lemma_subslice_subslice(
            c.slice,
            n * size,
            (len - n * size) as nat,
            i as nat * size,
            min_nat(size, (d.slice.len - i * size) as nat),
        );
        assert(n * size + i * size == (n + i) * size) by (nonlinear_arith);
    }
}

/// After the last chunk has left from the back, the chunks that remain are the
/// old ones without the last.
pub proof fn lemma_chunks_keep_front(c: ChunksView, k: nat)
    requires
        c.chunk_size > 0,
        k <= c.count(),
        k < c.count() ==> k * c.chunk_size <= c.slice.len,
    ensures
        k < c.count() ==> c.keep_front(k * c.chunk_size).items() =~= c.items().take(k as int),
{
    let size = c.chunk_size;
    let len = c.slice.len;
    if k < c.count() {
        let d = c.keep_front(k * size);
        assert(d.slice.len == k * size);
        assert(d.slice.len % size == 0 && d.slice.len / size == k) by {
            lemma_fundamental_div_mod_converse((k * size) as int, size as int, k as int, 0);
        }
        assert(d.count() == k);
        lemma_groups_cover(len, size, k + 1);
        assert forall|i: int| 0 <= i < k implies #[trigger] d.items()[i] == c.items().take(k as int)[i] by {
            assert((i + 1) * size <= k * size) by (nonlinear_arith)
                requires
                    0 <= i < k,
                    size > 0,
            ;
            assert((i + 1) * size == i * size + size) by (nonlinear_arith);
        }
    }
}

/// What a chunk iterator that counts from the back still has to yield: the view
/// that remains and the length of a full chunk.
pub struct RChunksView {
    pub slice: SliceView,
    pub chunk_size: nat,
}

impl RChunksView {
    /// Whether the view is well formed and the chunk size is not zero.
    pub open spec fn wf(self) -> bool {
        self.slice.wf() && self.chunk_size > 0
    }

    /// The number of chunks.
    pub open spec fn count(self) -> nat {
        group_count(self.slice.len, self.chunk_size)
    }

    /// The chunk at position `i` from the back: the `chunk_size` elements that
    /// end `i * chunk_size` elements before the end of the view, or as many as
    /// there are before that point.
    pub open spec fn chunk(self, i: nat) -> SliceView {
        let end = (self.slice.len - i * self.chunk_size) as nat;
        let size = min_nat(self.chunk_size, end);
        self.slice.subslice((end - size) as nat, size)
    }

    /// All chunks, back to front.
    pub open spec fn items(self) -> Seq<SliceView> {
        Seq::new(self.count(), |i: int| self.chunk(i as nat))
    }

    /// The state after the last `n` elements have left.
    pub open spec fn drop_back(self, n: nat) -> RChunksView {
        RChunksView { slice: self.slice.truncate(n), chunk_size: self.chunk_size }
    }

    /// The state after the first `n` elements have left.
    pub open spec fn drop_front(self, n: nat) -> RChunksView {
        RChunksView {
            slice: self.slice.subslice(n, (self.slice.len - n) as nat),
            chunk_size: self.chunk_size,
        }
    }
}

/// A chunk iterator with no elements has no chunks, and one with elements has
/// at least one.
pub proof fn lemma_rchunks_empty(c: RChunksView)
    requires
        c.chunk_size > 0,
    ensures
        c.slice.len == 0 <==> c.count() == 0,
        c.items().len() == c.count(),
{
    lemma_groups_cover(c.slice.len, c.chunk_size, 0);
}

/// After `n` whole chunks have left at the back, the chunks that remain are the
/// old ones from position `n` on.
pub proof fn lemma_rchunks_drop_back(c: RChunksView, n: nat)
    requires
        c.chunk_size > 0,
        n * c.chunk_size <= c.slice.len,
    ensures
        n <= c.count(),
        c.drop_back(n * c.chunk_size).items() =~= c.items().skip(n as int),
{
    let size = c.chunk_size;
    let len = c.slice.len;
    lemma_groups_removed(len, size, n);
    let d = c.drop_back(n * size);
    assert forall|i: int| 0 <= i < d.count() implies #[trigger] d.items()[i] == c.items().skip(
        n as int,
    )[i] by {
        assert(n * size + i * size == (n + i) * size) by (nonlinear_arith);
    }
}

/// After all but the last `k` whole chunks have left at the front, the chunks
/// that remain are the first `k` old ones.
pub proof fn lemma_rchunks_drop_front(c: RChunksView, k: nat)
    requires
        c.chunk_size > 0,
        k < c.count(),
    ensures
        k * c.chunk_size <= c.slice.len,
        c.drop_front((c.slice.len - k * c.chunk_size) as nat).items() =~= c.items().take(
            k as int,
        ),
{
    let size = c.chunk_size;
    let len = c.slice.len;
    lemma_groups_cover(len, size, k + 1);
    lemma_groups_cover(len, size, k);
    assert((k + 1) * size == k * size + size) by (nonlinear_arith);
    let d = c.drop_front((len - k * size) as nat);
    assert(d.slice.len == k * size);
    assert(d.slice.len % size == 0 && d.slice.len / size == k) by {
        lemma_fundamental_div_mod_converse((k * size) as int, size as int, k as int, 0);
    }
    assert(d.count() == k);
    assert forall|i: int| 0 <= i < k implies #[trigger] d.items()[i] == c.items().take(
        k as int,
    )[i] by {
        assert((i + 1) * size <= k * size) by (nonlinear_arith)
            requires
                0 <= i < k,
                size > 0,
        ;
        assert((i + 1) * size == i * size + size) by (nonlinear_arith);
        let start = (k * size - i * size - size) as nat;
        lemma_subslice_subslice(c.slice, (len - k * size) as nat, k * size, start, size);
    }
}

/// What a window iterator still has to yield: the view that remains and the
/// length of a window.
pub struct WindowsView {
    pub slice: SliceView,
    pub window_size: nat,
}

impl WindowsView {
    /// Whether the view is well formed and the window size is not zero.
    pub open spec fn wf(self) -> bool {
        self.slice.wf() && self.window_size > 0
    }

    /// The number of windows: one for each index at which a whole window starts.
    pub open spec fn count(self) -> nat {
        if self.slice.len >= self.window_size {
            (self.slice.len - self.window_size + 1) as nat
        } else {
            0
        }
    }

    /// The window that starts at index `i`.
    pub open spec fn window(self, i: nat) -> SliceView {
        self.slice.subslice(i, self.window_size)
    }

    /// All windows, front to back.
    pub open spec fn items(self) -> Seq<SliceView> {
        Seq::new(self.count(), |i: int| self.window(i as nat))
    }

    /// The state after the first `n` elements have left.
    pub open spec fn drop_front(self, n: nat) -> WindowsView {
        WindowsView {
            slice: self.slice.subslice(n, (self.slice.len - n) as nat),
            window_size: self.window_size,
        }
    }

    /// The state after the last `n` elements have left.
    pub open spec fn drop_back(self, n: nat) -> WindowsView {
        WindowsView { slice: self.slice.truncate(n), window_size: self.window_size }
    }
}

/// After `n` elements have left at the front, the windows that remain are the
/// old ones from position `n` on.
pub proof fn lemma_windows_drop_front(w: WindowsView, n: nat)
    requires
        n <= w.slice.len,
    ensures
        n <= w.count() ==> w.drop_front(n).items() =~= w.items().skip(n as int),
        n >= w.count() ==> w.drop_front(n).items().len() == 0,
{
    let d = w.drop_front(n);
    if n <= w.count() {
        assert forall|i: int| 0 <= i < d.count() implies #[trigger] d.items()[i]
            == w.items().skip(n as int)[i] by {
            lemma_subslice_subslice(
                w.slice,
                n,
                (w.slice.len - n) as nat,
                i as nat,
                w.window_size,
            );
        }
    }
}

/// After `n` elements have left at the back, the windows that remain are the
/// old ones without the last `n`.
pub proof fn lemma_windows_drop_back(w: WindowsView, n: nat)
    requires
        n <= w.slice.len,
    ensures
        n <= w.count() ==> w.drop_back(n).items() =~= w.items().take(w.count() - n),
        n >= w.count() ==> w.drop_back(n).items().len() == 0,
{
}

/// After `n` elements have left at the front of a view, the elements that remain
/// are the old ones from position `n` on.
pub proof fn lemma_elements_drop_front(v: SliceView, n: nat)
    requires
        n <= v.len,
    ensures
        v.subslice(n, (v.len - n) as nat).elements() =~= v.elements().skip(n as int),
{
    let d = v.subslice(n, (v.len - n) as nat);
    let s = v.stride() as int;
    assert forall|i: int| 0 <= i < d.len implies #[trigger] d.elements()[i] == v.elements().skip(
        n as int,
    )[i] by {
        assert((n + i) * s == n * s + i * s) by (nonlinear_arith);
    }
}

/// After `n` elements have left at the back of a view, the elements that remain
/// are the old ones without the last `n`.
pub proof fn lemma_elements_drop_back(v: SliceView, n: nat)
    requires
        n <= v.len,
    ensures
        v.truncate(n).elements() =~= v.elements().take(v.len - n),
{
}

} // verus!
