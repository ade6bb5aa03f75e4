use vstd::prelude::*;
use crate::dyn_slice::DynSlice;
use crate::record::Bound;
use crate::sequence::{
    lemma_chunks_empty, lemma_chunks_keep_front, lemma_chunks_skip_front, lemma_groups_cover,
    lemma_short_group, ChunksView,
};
use crate::utils::extend_lifetime;

verus! {

/// Iterator over the chunks of a [`DynSlice`], counted from its front: each has
/// `chunk_size` elements, but for the last one, which has what is left.
pub struct Chunks<'a, Dyn: ?Sized> {
    pub(crate) slice: DynSlice<'a, Dyn>,
    pub(crate) chunk_size: usize,
}

impl<'a, Dyn: ?Sized> View for Chunks<'a, Dyn> {
    type V = ChunksView;

    open(crate) spec fn view(&self) -> ChunksView {
        ChunksView { slice: self.slice@, chunk_size: self.chunk_size as nat }
    }
}

impl<'a, Dyn: ?Sized> Chunks<'a, Dyn> {
    /// Whether the iterator is well formed: its view is, and the chunk size is
    /// not zero.
    pub open spec fn wf(&self) -> bool {
        self@.wf()
    }

    /// The length of the chunk at the back.
    fn back_len(&self) -> (n: usize)
        requires
            self.wf(),
            self@.slice.len > 0,
        ensures
            n == crate::sequence::short_group_len(self@.slice.len, self@.chunk_size),
            0 < n <= self@.slice.len,
    {
        proof {
            lemma_short_group(self@.slice.len, self@.chunk_size);
        }
        let rest = self.slice.len() % self.chunk_size;
        if rest == 0 {
            self.chunk_size
        } else {
            rest
        }
    }

    /// Takes the chunk at the front, if there is one.
    pub fn next(&mut self) -> (r: Option<DynSlice<'a, Dyn>>)
        requires
            old(self).wf(),
        ensures
            final(self).wf(),
            final(self)@.chunk_size == old(self)@.chunk_size,
            old(self)@.count() == 0 ==> r is None && final(self)@ == old(self)@,
            final(self)@.items().len() + (if r is Some {
                1nat
            } else {
                0nat
            }) == old(self)@.items().len(),
            old(self)@.count() > 0 ==> r is Some && final(self)@.items() == old(
                self,
            )@.items().drop_first(),
            r matches Some(chunk) ==> chunk.wf() && chunk@ == old(self)@.items()[0],
    {
        proof {
            lemma_chunks_empty(self@);
        }
        if self.slice.is_empty() {
            None
        } else {
            let len = if self.slice.len() < self.chunk_size {
                self.slice.len()
            } else {
                self.chunk_size
            };
            let (chunk, remaining) = self.slice.split_at_unchecked(len);
            let (chunk, remaining) = (extend_lifetime(chunk), extend_lifetime(remaining));
            proof {
                let before = self@;
                if before.slice.len >= before.chunk_size {
                    lemma_chunks_skip_front(before, 1);
                    assert(before.skip_front(1).slice == remaining@);
                } else {
                    lemma_groups_cover(before.slice.len, before.chunk_size, 1);
                    let after = ChunksView { slice: remaining@, chunk_size: before.chunk_size };
                    lemma_chunks_empty(after);
                    assert(after.items() =~= before.items().drop_first());
                }
            }
            self.slice = remaining;
            Some(chunk)
        }
    }

    /// The number of chunks that are left, as the lower and the upper bound.
    pub fn size_hint(&self) -> (r: (usize, Option<usize>))
        requires
            self.wf(),
        ensures
            r.0 == self@.items().len(),
            r.1 == Some(r.0),
    {
        let remaining = self.len();
        (remaining, Some(remaining))
    }

    /// The number of chunks that are left.
    pub fn count(self) -> (n: usize)
        requires
            self.wf(),
        ensures
            n == self@.items().len(),
    {
        self.len()
    }

    /// Skips `n` chunks at the front and takes the next one. Where fewer than
    /// `n + 1` chunks are left, nothing is left afterwards.
    pub fn nth(&mut self, n: usize) -> (r: Option<DynSlice<'a, Dyn>>)
        requires
            old(self).wf(),
        ensures
            final(self).wf(),
            final(self)@.chunk_size == old(self)@.chunk_size,
            n < old(self)@.count() ==> r is Some && final(self)@.items() == old(
                self,
            )@.items().skip(n + 1),
            n >= old(self)@.count() ==> r is None && final(self)@.items().len() == 0,
            r matches Some(chunk) ==> chunk.wf() && chunk@ == old(self)@.items()[n as int],
    {
        proof {
            lemma_groups_cover(self@.slice.len, self@.chunk_size, n as nat);
            assert(self.chunk_size * n == n * self.chunk_size) by (nonlinear_arith);
        }
        let skip_len = match self.chunk_size.checked_mul(n) {
            Some(s) => s,
            None => {
                self.slice.len = 0;
                proof {
                    lemma_chunks_empty(self@);
                }
                return None;
            },
        };
        let remaining = match self.slice.slice(Bound::Included(skip_len), Bound::Unbounded) {
            Some(s) => extend_lifetime(s),
            None => {
                self.slice.len = 0;
                proof {
                    lemma_chunks_empty(self@);
                }
                return None;
            },
        };
        proof {
            lemma_chunks_skip_front(self@, n as nat);
            assert(self@.skip_front(n as nat).slice == remaining@);
            lemma_chunks_empty(self@.skip_front(n as nat));
            if n < self@.count() {
                assert(self@.items().skip(n as int).drop_first() =~= self@.items().skip(n + 1));
            }
        }
        self.slice = remaining;
        self.next()
    }

    /// Takes the chunk at the back, if there is one.
    pub fn last(self) -> (r: Option<DynSlice<'a, Dyn>>)
        requires
            self.wf(),
        ensures
            r is Some <==> self@.count() > 0,
            r matches Some(chunk) ==> chunk.wf() && chunk@ == self@.items().last(),
    {
        let mut rest = self;
        rest.next_back()
    }

    /// Takes the chunk at the back, if there is one.
    pub fn next_back(&mut self) -> (r: Option<DynSlice<'a, Dyn>>)
        requires
            old(self).wf(),
        ensures
            final(self).wf(),
            final(self)@.chunk_size == old(self)@.chunk_size,
            old(self)@.count() == 0 ==> r is None && final(self)@ == old(self)@,
            final(self)@.items().len() + (if r is Some {
                1nat
            } else {
                0nat
            }) == old(self)@.items().len(),
            old(self)@.count() > 0 ==> r is Some && final(self)@.items() == old(
                self,
            )@.items().drop_last(),
            r matches Some(chunk) ==> chunk.wf() && chunk@ == old(self)@.items().last(),
    {
        proof {
            lemma_chunks_empty(self@);
        }
        if self.slice.is_empty() {
            None
        } else {
            let len = self.back_len();
            let mid = self.slice.len() - len;
            let (remaining, chunk) = self.slice.split_at_unchecked(mid);
            let (remaining, chunk) = (extend_lifetime(remaining), extend_lifetime(chunk));
            proof {
                let before = self@;
                let k = (before.count() - 1) as nat;
                lemma_short_group(before.slice.len, before.chunk_size);
                lemma_chunks_keep_front(before, k);
                assert(before.keep_front(k * before.chunk_size).slice == remaining@);
                assert(before.items().take(k as int) =~= before.items().drop_last());
            }
            self.slice = remaining;
            Some(chunk)
        }
    }

    /// Skips `n` chunks at the back and takes the next one. Where fewer than
    /// `n + 1` chunks are left, nothing is left afterwards.
    pub fn nth_back(&mut self, n: usize) -> (r: Option<DynSlice<'a, Dyn>>)
        requires
            old(self).wf(),
        ensures
            final(self).wf(),
            final(self)@.chunk_size == old(self)@.chunk_size,
            n < old(self)@.count() ==> r is Some && final(self)@.items() == old(
                self,
            )@.items().take(old(self)@.count() - 1 - n),
            n >= old(self)@.count() ==> r is None && final(self)@.items().len() == 0,
            r matches Some(chunk) ==> chunk.wf() && chunk@ == old(self)@.items()[old(
                self,
            )@.count() - 1 - n],
    {
        proof {
            lemma_chunks_empty(self@);
        }
        if self.slice.is_empty() {
            return None;
        }
        if let Some(m) = n.checked_sub(1) {
            let ghost before = self@;
            let ghost count = before.count();
            proof {
                lemma_groups_cover(before.slice.len, before.chunk_size, m as nat);
                lemma_short_group(before.slice.len, before.chunk_size);
            }
            let mut skipped = match m.checked_mul(self.chunk_size) {
                Some(s) => s,
                None => {
                    self.slice.len = 0;
                    proof {
                        lemma_chunks_empty(self@);
                    }
                    return None;
                },
            };
            let last = self.back_len();
            skipped = skipped.saturating_add(last);
            self.slice.len = self.slice.len.saturating_sub(skipped);
            proof {
                let size = before.chunk_size;
                crate::layout::lemma_truncate_wf(
                    before.slice,
                    (before.slice.len - self@.slice.len) as nat,
                );
                assert((count - 1) * size - m * size == (count - n) * size) by (nonlinear_arith)
                    requires
                        m == n - 1,
                ;
                if n < count {
                    assert(m * size < (count - 1) * size) by (nonlinear_arith)
                        requires
                            m < count - 1,
                            size > 0,
                    ;
                    let k = (count - n) as nat;
                    lemma_chunks_keep_front(before, k);
                    assert((k * size) as nat == self@.slice.len);
                    assert(before.keep_front(k * size) == self@);
                    assert(before.items().take(k as int).drop_last() =~= before.items().take(
                        count - 1 - n,
                    ));
                } else {
                    assert(m * size >= (count - 1) * size) by (nonlinear_arith)
                        requires
                            m >= count - 1,
                            size > 0,
                    ;
                    assert(self@.slice.len == 0);
                }
                lemma_chunks_empty(self@);
            }
        }
        self.next_back()
    }

    /// The number of chunks that are left.
    pub fn len(&self) -> (n: usize)
        requires
            self.wf(),
        ensures
            n == self@.count(),
            n == self@.items().len(),
    {
        let whole = self.slice.len() / self.chunk_size;
        proof {
            vstd::arithmetic::div_mod::lemma_fundamental_div_mod(
                self@.slice.len as int,
                self@.chunk_size as int,
            );
            assert(whole < usize::MAX || self@.slice.len % self@.chunk_size == 0)
                by (nonlinear_arith)
                requires
                    self@.slice.len == self@.chunk_size * whole + self@.slice.len
                        % self@.chunk_size,
                    self@.slice.len <= usize::MAX,
                    self@.chunk_size > 0,
                    0 <= self@.slice.len % self@.chunk_size,
            ;
        }
        if self.slice.len() % self.chunk_size != 0 {
            whole + 1
        } else {
            whole
        }
    }
}

} // verus!
