use dyn_slice::iter::{Chunks, ChunksMut, RChunks, RChunksMut, Windows};
use dyn_slice::{DispatchRecord, DynSlice, DynSliceMut};

type Ped = dyn PartialEq<u8>;

const RECORD: DispatchRecord = DispatchRecord { vtable: 0x5000, stride: 1, type_key: 8 };

fn record_for(array: &[u8]) -> DispatchRecord {
    if array.is_empty() {
        DispatchRecord::sentinel()
    } else {
        RECORD
    }
}

fn new(array: &[u8]) -> DynSlice<'_, Ped> {
    let data = array.as_ptr() as usize;
    DynSlice::with_vtable_ptr(array, data, record_for(array))
}

fn new_mut(array: &mut [u8]) -> DynSliceMut<'_, Ped> {
    let data = array.as_ptr() as usize;
    let record = record_for(array);
    DynSliceMut::with_vtable_ptr(array, data, record)
}

/// The elements of `array` that a view with first address `data` and `len`
/// elements covers.
fn covered(array: &[u8], data: usize, len: usize) -> &[u8] {
    let start = data - array.as_ptr() as usize;
    &array[start..start + len]
}

/// One of the iterators over sub-views, from either end.
trait SubViews {
    fn take_next(&mut self) -> Option<(usize, usize)>;
    fn take_nth(&mut self, n: usize) -> Option<(usize, usize)>;
    fn left(&self) -> usize;
}

fn parts(view: Option<DynSlice<'_, Ped>>) -> Option<(usize, usize)> {
    view.map(|v| (v.as_ptr(), v.len()))
}

fn parts_mut(view: Option<DynSliceMut<'_, Ped>>) -> Option<(usize, usize)> {
    view.map(|v| (v.as_ptr(), v.len()))
}

/// The iterator walked from its back.
struct Rev<I>(I);

impl SubViews for Chunks<'_, Ped> {
    fn take_next(&mut self) -> Option<(usize, usize)> {
        parts(self.next())
    }

    fn take_nth(&mut self, n: usize) -> Option<(usize, usize)> {
        parts(self.nth(n))
    }

    fn left(&self) -> usize {
        self.len()
    }
}

impl SubViews for Rev<Chunks<'_, Ped>> {
    fn take_next(&mut self) -> Option<(usize, usize)> {
        parts(self.0.next_back())
    }

    fn take_nth(&mut self, n: usize) -> Option<(usize, usize)> {
        parts(self.0.nth_back(n))
    }

    fn left(&self) -> usize {
        self.0.len()
    }
}

impl SubViews for RChunks<'_, Ped> {
    fn take_next(&mut self) -> Option<(usize, usize)> {
        parts(self.next())
    }

    fn take_nth(&mut self, n: usize) -> Option<(usize, usize)> {
        parts(self.nth(n))
    }

    fn left(&self) -> usize {
        self.len()
    }
}

impl SubViews for Rev<RChunks<'_, Ped>> {
    fn take_next(&mut self) -> Option<(usize, usize)> {
        parts(self.0.next_back())
    }

    fn take_nth(&mut self, n: usize) -> Option<(usize, usize)> {
        parts(self.0.nth_back(n))
    }

    fn left(&self) -> usize {
        self.0.len()
    }
}

impl SubViews for Windows<'_, Ped> {
    fn take_next(&mut self) -> Option<(usize, usize)> {
        parts(self.next())
    }

    fn take_nth(&mut self, n: usize) -> Option<(usize, usize)> {
        parts(self.nth(n))
    }

    fn left(&self) -> usize {
        self.len()
    }
}

impl SubViews for Rev<Windows<'_, Ped>> {
    fn take_next(&mut self) -> Option<(usize, usize)> {
        parts(self.0.next_back())
    }

    fn take_nth(&mut self, n: usize) -> Option<(usize, usize)> {
        parts(self.0.nth_back(n))
    }

    fn left(&self) -> usize {
        self.0.len()
    }
}

impl SubViews for ChunksMut<'_, Ped> {
    fn take_next(&mut self) -> Option<(usize, usize)> {
        parts_mut(self.next())
    }

    fn take_nth(&mut self, n: usize) -> Option<(usize, usize)> {
        parts_mut(self.nth(n))
    }

    fn left(&self) -> usize {
        self.len()
    }
}

impl SubViews for Rev<ChunksMut<'_, Ped>> {
    fn take_next(&mut self) -> Option<(usize, usize)> {
        parts_mut(self.0.next_back())
    }

    fn take_nth(&mut self, n: usize) -> Option<(usize, usize)> {
        parts_mut(self.0.nth_back(n))
    }

    fn left(&self) -> usize {
        self.0.len()
    }
}

impl SubViews for RChunksMut<'_, Ped> {
    fn take_next(&mut self) -> Option<(usize, usize)> {
        parts_mut(self.next())
    }

    fn take_nth(&mut self, n: usize) -> Option<(usize, usize)> {
        parts_mut(self.nth(n))
    }

    fn left(&self) -> usize {
        self.len()
    }
}

impl SubViews for Rev<RChunksMut<'_, Ped>> {
    fn take_next(&mut self) -> Option<(usize, usize)> {
        parts_mut(self.0.next_back())
    }

    fn take_nth(&mut self, n: usize) -> Option<(usize, usize)> {
        parts_mut(self.0.nth_back(n))
    }

    fn left(&self) -> usize {
        self.0.len()
    }
}

/// Walks `iter` beside `expected` and holds every item and every length that
/// is left against it. `storage` is what `iter` covers, `values` what it holds.
fn check_walk<'e>(
    mut iter: impl SubViews,
    mut expected: impl ExactSizeIterator<Item = &'e [u8]>,
    storage: usize,
    values: &[u8],
) {
    assert_eq!(
        iter.left(),
        expected.len(),
        "initial length was not equal to expected initial length"
    );

    while let Some(expected_item) = expected.next() {
        let (data, len) = iter.take_next().expect("expected another item");
        let actual = &values[data - storage..data - storage + len];
        assert_eq!(actual, expected_item, "item was not equal to expected item");

        assert_eq!(
            iter.left(),
            expected.len(),
            "length was not equal to expected length"
        );
    }

    assert_eq!(iter.left(), 0, "length was not zero");
    assert!(iter.take_next().is_none(), "expected no more elements");
}

/// For every `n`, skips `n` items of a fresh iterator beside a fresh
/// `expected`, and holds the item and the length that is left against it.
fn check_skip<'e, I: SubViews, E: ExactSizeIterator<Item = &'e [u8]>>(
    make: impl Fn() -> I,
    make_expected: impl Fn() -> E,
    storage: usize,
    values: &[u8],
) {
    let len = make_expected().len();

    for n in 0..len {
        let mut iter = make();
        let mut expected = make_expected();

        let expected_item = expected
            .nth(n)
            .expect("expected an item from the oracle iterator");
        let (data, item_len) = iter.take_nth(n).expect("expected an item");
        let actual = &values[data - storage..data - storage + item_len];

        assert_eq!(actual, expected_item, "item was not equal to expected item");

        assert_eq!(
            iter.left(),
            expected.len(),
            "length was not equal to expected length"
        );
    }

    let mut iter = make();
    assert!(iter.take_nth(len).is_none(), "expected no more elements");
    assert_eq!(iter.left(), 0, "length was not zero");
}

#[test]
fn chunks_basic() {
    let a = [1, 2, 3, 4, 5, 6];
    let ds = new(&a);
    check_walk(ds.chunks(3).unwrap(), a.chunks(3), a.as_ptr() as usize, &a);

    let a = [1, 2, 3, 4, 5];
    let ds = new(&a);
    check_walk(ds.chunks(3).unwrap(), a.chunks(3), a.as_ptr() as usize, &a);
}

#[test]
fn chunks_basic_back() {
    let a = [1, 2, 3, 4, 5, 6];
    let ds = new(&a);
    check_walk(Rev(ds.chunks(3).unwrap()), a.chunks(3).rev(), a.as_ptr() as usize, &a);

    let a = [1, 2, 3, 4, 5];
    let ds = new(&a);
    check_walk(Rev(ds.chunks(3).unwrap()), a.chunks(3).rev(), a.as_ptr() as usize, &a);
}

#[test]
fn chunks_nth() {
    let a = [1, 2, 3, 4, 5, 6];
    let ds = new(&a);
    check_skip(|| ds.chunks(3).unwrap(), || a.chunks(3), a.as_ptr() as usize, &a);

    let a = [1, 2, 3, 4, 5];
    let ds = new(&a);
    check_skip(|| ds.chunks(3).unwrap(), || a.chunks(3), a.as_ptr() as usize, &a);
}

#[test]
fn chunks_nth_back() {
    let a = [1, 2, 3, 4, 5, 6];
    let ds = new(&a);
    check_skip(|| Rev(ds.chunks(3).unwrap()), || a.chunks(3).rev(), a.as_ptr() as usize, &a);

    let a = [1, 2, 3, 4, 5];
    let ds = new(&a);
    check_skip(|| Rev(ds.chunks(3).unwrap()), || a.chunks(3).rev(), a.as_ptr() as usize, &a);
}

#[test]
fn basic_chunks() {
    let a = [1, 2, 3, 4, 5, 6];
    let mut a_mut = a;
    let storage = a_mut.as_ptr() as usize;
    let mut s = new_mut(&mut a_mut);
    let mut chunks = s.chunks_mut(3).unwrap();

    for expected in a.chunks(3) {
        let actual = chunks.next().expect("expected another chunk");
        assert_eq!(covered_by(&a, storage, &actual), expected);
    }

    assert!(chunks.next().is_none());

    let a = [1, 2, 3, 4, 5];
    let mut a_mut = a;
    let storage = a_mut.as_ptr() as usize;
    let mut s = new_mut(&mut a_mut);
    let mut chunks = s.chunks_mut(3).unwrap();

    for expected in a.chunks(3) {
        let actual = chunks.next().expect("expected another chunk");
        assert_eq!(covered_by(&a, storage, &actual), expected);
    }

    assert!(chunks.next().is_none());
}

/// As `check_skip`, with iterators that borrow the mutable view `ds` in turn.
fn check_skip_mut<'e, E: ExactSizeIterator<Item = &'e [u8]>>(
    ds: &mut DynSliceMut<'_, Ped>,
    make: for<'x, 'y> fn(&'x mut DynSliceMut<'y, Ped>) -> Box<dyn SubViews + 'x>,
    make_expected: impl Fn() -> E,
    storage: usize,
    values: &[u8],
) {
    let len = make_expected().len();

    for n in 0..len {
        let mut iter = make(ds);
        let mut expected = make_expected();

        let expected_item = expected
            .nth(n)
            .expect("expected an item from the oracle iterator");
        let (data, item_len) = iter.take_nth(n).expect("expected an item");
        let actual = &values[data - storage..data - storage + item_len];

        assert_eq!(actual, expected_item, "item was not equal to expected item");

        assert_eq!(
            iter.left(),
            expected.len(),
            "length was not equal to expected length"
        );
    }

    let mut iter = make(ds);
    assert!(iter.take_nth(len).is_none(), "expected no more elements");
    assert_eq!(iter.left(), 0, "length was not zero");
}

/// The values of `values` at the positions that `view` covers of the storage
/// at address `storage`.
fn covered_by<'v>(values: &'v [u8], storage: usize, view: &DynSliceMut<'_, Ped>) -> &'v [u8] {
    let start = view.as_ptr() - storage;
    &values[start..start + view.len()]
}

#[test]
fn basic_chunks_back() {
    let a = [1, 2, 3, 4, 5, 6];
    let mut a_mut = a;
    let storage = a_mut.as_ptr() as usize;
    let mut s = new_mut(&mut a_mut);
    let mut chunks = s.chunks_mut(3).unwrap();

    for expected in a.chunks(3).rev() {
        let actual = chunks.next_back().expect("expected another chunk");
        assert_eq!(covered_by(&a, storage, &actual), expected);
    }

    assert!(chunks.next_back().is_none());

    let a = [1, 2, 3, 4, 5];
    let mut a_mut = a;
    let storage = a_mut.as_ptr() as usize;
    let mut s = new_mut(&mut a_mut);
    let mut chunks = s.chunks_mut(3).unwrap();

    for expected in a.chunks(3).rev() {
        let actual = chunks.next_back().expect("expected another chunk");
        assert_eq!(covered_by(&a, storage, &actual), expected);
    }

    assert!(chunks.next_back().is_none());
}

#[test]
fn chunks_mut_basic() {
    let a = [1, 2, 3, 4, 5, 6];
    let mut a_mut = a;
    let storage = a_mut.as_ptr() as usize;
    let mut ds = new_mut(&mut a_mut);
    check_walk(ds.chunks_mut(3).unwrap(), a.chunks(3), storage, &a);

    let a = [1, 2, 3, 4, 5];
    let mut a_mut = a;
    let storage = a_mut.as_ptr() as usize;
    let mut ds = new_mut(&mut a_mut);
    check_walk(ds.chunks_mut(3).unwrap(), a.chunks(3), storage, &a);
}

#[test]
fn chunks_mut_basic_back() {
    let a = [1, 2, 3, 4, 5, 6];
    let mut a_mut = a;
    let storage = a_mut.as_ptr() as usize;
    let mut ds = new_mut(&mut a_mut);
    check_walk(Rev(ds.chunks_mut(3).unwrap()), a.chunks(3).rev(), storage, &a);

    let a = [1, 2, 3, 4, 5];
    let mut a_mut = a;
    let storage = a_mut.as_ptr() as usize;
    let mut ds = new_mut(&mut a_mut);
    check_walk(Rev(ds.chunks_mut(3).unwrap()), a.chunks(3).rev(), storage, &a);
}

#[test]
fn chunks_mut_nth() {
    let a = [1, 2, 3, 4, 5, 6];
    let mut a_mut = a;
    let storage = a_mut.as_ptr() as usize;
    let mut ds = new_mut(&mut a_mut);
    check_skip_mut(
        &mut ds,
        |ds| Box::new(ds.chunks_mut(3).unwrap()),
        || a.chunks(3),
        storage,
        &a,
    );

    let a = [1, 2, 3, 4, 5];
    let mut a_mut = a;
    let storage = a_mut.as_ptr() as usize;
    let mut ds = new_mut(&mut a_mut);
    check_skip_mut(
        &mut ds,
        |ds| Box::new(ds.chunks_mut(3).unwrap()),
        || a.chunks(3),
        storage,
        &a,
    );
}

#[test]
fn chunks_mut_nth_back() {
    let a = [1, 2, 3, 4, 5, 6];
    let ds = new(&a);
    check_skip(|| Rev(ds.rchunks(3).unwrap()), || a.rchunks(3).rev(), a.as_ptr() as usize, &a);

    let a = [1, 2, 3, 4, 5];
    let ds = new(&a);
    check_skip(|| Rev(ds.rchunks(3).unwrap()), || a.rchunks(3).rev(), a.as_ptr() as usize, &a);
}

#[test]
fn chunks_mut_skip_from_the_back() {
    let a = [1, 2, 3, 4, 5, 6];
    let mut a_mut = a;
    let storage = a_mut.as_ptr() as usize;
    let mut ds = new_mut(&mut a_mut);
    check_skip_mut(
        &mut ds,
        |ds| Box::new(Rev(ds.chunks_mut(3).unwrap())),
        || a.chunks(3).rev(),
        storage,
        &a,
    );

    let a = [1, 2, 3, 4, 5];
    let mut a_mut = a;
    let storage = a_mut.as_ptr() as usize;
    let mut ds = new_mut(&mut a_mut);
    check_skip_mut(
        &mut ds,
        |ds| Box::new(Rev(ds.chunks_mut(3).unwrap())),
        || a.chunks(3).rev(),
        storage,
        &a,
    );
}

#[test]
fn rchunks_basic() {
    let a = [1, 2, 3, 4, 5, 6];
    let ds = new(&a);
    check_walk(ds.rchunks(3).unwrap(), a.rchunks(3), a.as_ptr() as usize, &a);

    let a = [1, 2, 3, 4, 5];
    let ds = new(&a);
    check_walk(ds.rchunks(3).unwrap(), a.rchunks(3), a.as_ptr() as usize, &a);
}

#[test]
fn rchunks_basic_back() {
    let a = [1, 2, 3, 4, 5, 6];
    let ds = new(&a);
    check_walk(Rev(ds.rchunks(3).unwrap()), a.rchunks(3).rev(), a.as_ptr() as usize, &a);

    let a = [1, 2, 3, 4, 5];
    let ds = new(&a);
    check_walk(Rev(ds.rchunks(3).unwrap()), a.rchunks(3).rev(), a.as_ptr() as usize, &a);
}

#[test]
fn rchunks_nth() {
    let a = [1, 2, 3, 4, 5, 6];
    let ds = new(&a);
    check_skip(|| ds.rchunks(3).unwrap(), || a.rchunks(3), a.as_ptr() as usize, &a);

    let a = [1, 2, 3, 4, 5];
    let ds = new(&a);
    check_skip(|| ds.rchunks(3).unwrap(), || a.rchunks(3), a.as_ptr() as usize, &a);
}

#[test]
fn rchunks_mut_basic() {
    let a = [1, 2, 3, 4, 5, 6];
    let mut a_mut = a;
    let storage = a_mut.as_ptr() as usize;
    let mut ds = new_mut(&mut a_mut);
    check_walk(ds.rchunks_mut(3).unwrap(), a.rchunks(3), storage, &a);

    let a = [1, 2, 3, 4, 5];
    let mut a_mut = a;
    let storage = a_mut.as_ptr() as usize;
    let mut ds = new_mut(&mut a_mut);
    check_walk(ds.rchunks_mut(3).unwrap(), a.rchunks(3), storage, &a);
}

#[test]
fn rchunks_mut_basic_back() {
    let a = [1, 2, 3, 4, 5, 6];
    let mut a_mut = a;
    let storage = a_mut.as_ptr() as usize;
    let mut ds = new_mut(&mut a_mut);
    check_walk(Rev(ds.rchunks_mut(3).unwrap()), a.rchunks(3).rev(), storage, &a);

    let a = [1, 2, 3, 4, 5];
    let mut a_mut = a;
    let storage = a_mut.as_ptr() as usize;
    let mut ds = new_mut(&mut a_mut);
    check_walk(Rev(ds.rchunks_mut(3).unwrap()), a.rchunks(3).rev(), storage, &a);
}

#[test]
fn rchunks_mut_nth() {
    let a = [1, 2, 3, 4, 5, 6];
    let mut a_mut = a;
    let storage = a_mut.as_ptr() as usize;
    let mut ds = new_mut(&mut a_mut);
    check_skip_mut(
        &mut ds,
        |ds| Box::new(ds.rchunks_mut(3).unwrap()),
        || a.rchunks(3),
        storage,
        &a,
    );

    let a = [1, 2, 3, 4, 5];
    let mut a_mut = a;
    let storage = a_mut.as_ptr() as usize;
    let mut ds = new_mut(&mut a_mut);
    check_skip_mut(
        &mut ds,
        |ds| Box::new(ds.rchunks_mut(3).unwrap()),
        || a.rchunks(3),
        storage,
        &a,
    );
}

#[test]
fn rchunks_mut_nth_back() {
    let a = [1, 2, 3, 4, 5, 6];
    let mut a_mut = a;
    let storage = a_mut.as_ptr() as usize;
    let mut ds = new_mut(&mut a_mut);
    check_skip_mut(
        &mut ds,
        |ds| Box::new(Rev(ds.rchunks_mut(3).unwrap())),
        || a.rchunks(3).rev(),
        storage,
        &a,
    );

    let a = [1, 2, 3, 4, 5];
    let mut a_mut = a;
    let storage = a_mut.as_ptr() as usize;
    let mut ds = new_mut(&mut a_mut);
    check_skip_mut(
        &mut ds,
        |ds| Box::new(Rev(ds.rchunks_mut(3).unwrap())),
        || a.rchunks(3).rev(),
        storage,
        &a,
    );
}

#[test]
fn windows_basic() {
    let a = [1, 2, 3, 4, 5, 6];
    let ds = new(&a);
    check_walk(ds.windows(3).unwrap(), a.windows(3), a.as_ptr() as usize, &a);

    let a = [1, 2, 3, 4, 5];
    let ds = new(&a);
    check_walk(ds.windows(3).unwrap(), a.windows(3), a.as_ptr() as usize, &a);
}

#[test]
fn windows_basic_back() {
    let a = [1, 2, 3, 4, 5, 6];
    let ds = new(&a);
    check_walk(Rev(ds.windows(3).unwrap()), a.windows(3).rev(), a.as_ptr() as usize, &a);

    let a = [1, 2, 3, 4, 5];
    let ds = new(&a);
    check_walk(Rev(ds.windows(3).unwrap()), a.windows(3).rev(), a.as_ptr() as usize, &a);
}

#[test]
fn windows_nth() {
    let a = [1, 2, 3, 4, 5, 6];
    let ds = new(&a);
    check_skip(|| ds.windows(3).unwrap(), || a.windows(3), a.as_ptr() as usize, &a);

    let a = [1, 2, 3, 4, 5];
    let ds = new(&a);
    check_skip(|| ds.windows(3).unwrap(), || a.windows(3), a.as_ptr() as usize, &a);
}

#[test]
fn windows_nth_back() {
    let a = [1, 2, 3, 4, 5, 6];
    let ds = new(&a);
    check_skip(|| Rev(ds.windows(3).unwrap()), || a.windows(3).rev(), a.as_ptr() as usize, &a);

    let a = [1, 2, 3, 4, 5];
    let ds = new(&a);
    check_skip(|| Rev(ds.windows(3).unwrap()), || a.windows(3).rev(), a.as_ptr() as usize, &a);
}

#[test]
fn zero_size_is_rejected() {
    let a = [1, 2, 3];
    let mut a_mut = a;
    let ds = new(&a);
    assert!(ds.chunks(0).is_none());
    assert!(ds.rchunks(0).is_none());
    assert!(ds.windows(0).is_none());
    let mut ds = new_mut(&mut a_mut);
    assert!(ds.chunks_mut(0).is_none());
    assert!(ds.rchunks_mut(0).is_none());
}

#[test]
fn chunk_counts_and_last_lengths() {
    let a: Vec<u8> = (0..23).collect();
    let ds = new(&a);
    for size in 1..30usize {
        let chunks = ds.chunks(size).unwrap();
        assert_eq!(chunks.len(), (23 + size - 1) / size);
        let last = chunks.last().unwrap();
        assert_eq!(last.len(), 23 - size * (22 / size));
        let rchunks = ds.rchunks(size).unwrap();
        assert_eq!(rchunks.len(), (23 + size - 1) / size);
        let last = rchunks.last().unwrap();
        assert_eq!(last.len(), 23 - size * (22 / size));
        assert_eq!(last.as_ptr(), ds.as_ptr());
    }
    assert_eq!(ds.chunks(5).unwrap().len(), 5);
    assert_eq!(ds.chunks(5).unwrap().last().unwrap().len(), 3);
}

#[test]
fn window_counts() {
    let a: Vec<u8> = (0..7).collect();
    let ds = new(&a);
    assert_eq!(ds.windows(3).unwrap().len(), 5);
    assert_eq!(ds.windows(7).unwrap().len(), 1);
    assert_eq!(ds.windows(8).unwrap().len(), 0);
    assert!(ds.windows(8).unwrap().next().is_none());
    assert!(ds.windows(8).unwrap().next_back().is_none());
    let mut windows = ds.windows(3).unwrap();
    while let Some(window) = windows.next() {
        assert_eq!(window.len(), 3);
    }
}

#[test]
fn windows_scenario_forward_and_backward() {
    let a = [1, 2, 3, 4, 5];
    let ds = new(&a);
    let storage = a.as_ptr() as usize;
    let mut forward = ds.windows(3).unwrap();
    assert_eq!(forward.len(), 3);
    let mut seen = Vec::new();
    while let Some(w) = forward.next() {
        seen.push(covered(&a, w.as_ptr(), w.len()).to_vec());
    }
    assert_eq!(seen, vec![vec![1, 2, 3], vec![2, 3, 4], vec![3, 4, 5]]);
    let mut backward = ds.windows(3).unwrap();
    let mut seen_back = Vec::new();
    while let Some(w) = backward.next_back() {
        seen_back.push(covered(&a, w.as_ptr(), w.len()).to_vec());
    }
    seen_back.reverse();
    assert_eq!(seen_back, seen);
    assert_eq!(storage, ds.as_ptr());
}

#[test]
fn chunks_scenario() {
    let a = [1, 2, 3, 4, 5, 6];
    let ds = new(&a);
    let mut chunks = ds.chunks(3).unwrap();
    let first = chunks.next().unwrap();
    assert_eq!(covered(&a, first.as_ptr(), first.len()), &[1, 2, 3]);
    let second = chunks.next().unwrap();
    assert_eq!(covered(&a, second.as_ptr(), second.len()), &[4, 5, 6]);
    assert!(chunks.next().is_none());

    let a = [1, 2, 3, 4, 5];
    let ds = new(&a);
    let mut chunks = ds.chunks(3).unwrap();
    let first = chunks.next().unwrap();
    assert_eq!(covered(&a, first.as_ptr(), first.len()), &[1, 2, 3]);
    let second = chunks.next().unwrap();
    assert_eq!(covered(&a, second.as_ptr(), second.len()), &[4, 5]);
    assert!(chunks.next().is_none());
}

#[test]
fn skipping_past_the_end_exhausts() {
    let a = [1, 2, 3, 4, 5];
    let ds = new(&a);

    let mut chunks = ds.chunks(2).unwrap();
    assert!(chunks.nth(usize::MAX).is_none());
    assert_eq!(chunks.len(), 0);
    assert!(chunks.next().is_none());

    let mut chunks = ds.chunks(2).unwrap();
    assert!(chunks.nth_back(usize::MAX).is_none());
    assert_eq!(chunks.len(), 0);
    assert!(chunks.next_back().is_none());

    let mut rchunks = ds.rchunks(2).unwrap();
    assert!(rchunks.nth(3).is_none());
    assert_eq!(rchunks.len(), 0);

    let mut rchunks = ds.rchunks(2).unwrap();
    assert!(rchunks.nth_back(usize::MAX).is_none());
    assert_eq!(rchunks.len(), 0);

    let mut windows = ds.windows(2).unwrap();
    assert!(windows.nth(10).is_none());
    assert_eq!(windows.len(), 0);
    assert!(windows.next().is_none());
    assert!(windows.next_back().is_none());

    let mut windows = ds.windows(2).unwrap();
    assert!(windows.nth_back(4).is_none());
    assert_eq!(windows.len(), 0);
    assert!(windows.next().is_none());
}

#[test]
fn chunks_of_wide_elements() {
    let a: [u32; 5] = [10, 20, 30, 40, 50];
    let record = DispatchRecord { vtable: 0x6000, stride: 4, type_key: 32 };
    let base = a.as_ptr() as usize;
    let ds: DynSlice<'_, dyn PartialEq<u32>> = DynSlice::with_vtable_ptr(&a, base, record);
    let mut chunks = ds.chunks(2).unwrap();
    let c0 = chunks.next().unwrap();
    let c1 = chunks.next().unwrap();
    let c2 = chunks.next().unwrap();
    assert!(chunks.next().is_none());
    assert_eq!((c0.as_ptr(), c0.len()), (base, 2));
    assert_eq!((c1.as_ptr(), c1.len()), (base + 8, 2));
    assert_eq!((c2.as_ptr(), c2.len()), (base + 16, 1));
    assert_eq!(c2.metadata(), Some(record));
    let mut rchunks = ds.rchunks(2).unwrap();
    let r0 = rchunks.next().unwrap();
    let r1 = rchunks.next().unwrap();
    let r2 = rchunks.next().unwrap();
    assert!(rchunks.next().is_none());
    assert_eq!((r0.as_ptr(), r0.len()), (base + 12, 2));
    assert_eq!((r1.as_ptr(), r1.len()), (base + 4, 2));
    assert_eq!((r2.as_ptr(), r2.len()), (base, 1));
}
