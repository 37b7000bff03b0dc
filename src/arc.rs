//! Reference-counted cells held in an arena, the owning handles that share
//! them, and a variant of those handles whose value can be exchanged.
//!
//! Each cell pairs a value with the number of live handles to it. Cloning a
//! handle adds one to the count; dropping one takes one off, and the drop that
//! takes the count to zero frees the cell. Cells are only ever appended, so an
//! address is never reused once its cell has been freed, and address 0 (null)
//! never names a cell: a dropped handle is set to null, which makes a second
//! drop of it do nothing.
use vstd::prelude::*;

use crate::ptr::{null, Ptr};
use std::cmp::Ordering;
use vstd::std_specs::cmp::{PartialEqSpec, PartialOrdSpec};
use std::marker::PhantomData;

verus! {

/// What a cell holds: its value and the number of live handles to it.
pub struct ArcBox<T> {
    pub value: T,
    pub count: usize,
}

/// The arena of cells. Cell `i` is at address `i`; a freed cell is `None`.
pub struct ArcHeap<T> {
    values: Vec<Option<T>>,
    counts: Vec<usize>,
}

impl<T> View for ArcHeap<T> {
    type V = Seq<Option<ArcBox<T>>>;

    closed spec fn view(&self) -> Seq<Option<ArcBox<T>>> {
        Seq::new(
            self.values@.len(),
            |i: int|
                match self.values@[i] {
                    Some(v) => Some(ArcBox { value: v, count: self.counts@[i] }),
                    None => None,
                },
        )
    }
}

/// The cells after the count of the cell at `a` went up by one.
pub open spec fn after_clone<T>(cells: Seq<Option<ArcBox<T>>>, a: int) -> Seq<Option<ArcBox<T>>> {
    cells.update(
        a,
        Some(ArcBox { value: cells[a]->0.value, count: (cells[a]->0.count + 1) as usize }),
    )
}

/// Whether a release that finds `count` handles frees the cell: only the last
/// handle's does.
pub open spec fn release_frees(count: nat) -> bool {
    count == 1
}

/// The cells after one handle to the cell at `a` was released: the cell is
/// freed when that was its last handle, else its count goes down by one.
pub open spec fn after_release<T>(cells: Seq<Option<ArcBox<T>>>, a: int) -> Seq<
    Option<ArcBox<T>>,
> {
    if release_frees(cells[a]->0.count as nat) {
        cells.update(a, None)
    } else {
        cells.update(
            a,
            Some(ArcBox { value: cells[a]->0.value, count: (cells[a]->0.count - 1) as usize }),
        )
    }
}

/// The cells after the value of the cell at `a` was replaced by `v`.
pub open spec fn after_swap<T>(cells: Seq<Option<ArcBox<T>>>, a: int, v: T) -> Seq<
    Option<ArcBox<T>>,
> {
    cells.update(a, Some(ArcBox { value: v, count: cells[a]->0.count }))
}

impl<T> ArcHeap<T> {
    /// The two internal vectors describe the same cells.
    pub closed spec fn layout_ok(&self) -> bool {
        self.values@.len() == self.counts@.len()
    }

    /// Well-formed: address 0 is never a cell, and every cell that is not
    /// freed has at least one handle.
    pub open spec fn wf(&self) -> bool {
        &&& self.layout_ok()
        &&& self@.len() >= 1
        &&& self@[0] is None
        &&& forall|i: int| 0 <= i < self@.len() && #[trigger] self@[i] is Some ==> self@[i]->0.count >= 1
    }

    /// Whether `p` names a cell that has not been freed.
    pub open spec fn live(&self, p: Ptr) -> bool {
        &&& 0 < p.addr < self@.len()
        &&& self@[p.addr as int] is Some
    }

    /// The cell at `p`.
    pub open spec fn cell(&self, p: Ptr) -> ArcBox<T> {
        self@[p.addr as int]->0
    }

    /// An empty arena.
    pub fn new() -> (r: ArcHeap<T>)
        ensures
            r.wf(),
            r@.len() == 1,
    {
        let mut values: Vec<Option<T>> = Vec::new();
        let mut counts: Vec<usize> = Vec::new();
        values.push(None);
        counts.push(0);
        let r = ArcHeap { values, counts };
        assert(r@.len() == 1);
        r
    }

    /// Appends a cell holding `value` with one handle.
    fn allocate(&mut self, value: T) -> (p: Ptr)
        requires
            old(self).wf(),
            old(self)@.len() < usize::MAX,
        ensures
            final(self).wf(),
            p.addr == old(self)@.len(),
            final(self)@ == old(self)@.push(Some(ArcBox { value, count: 1 })),
    {
        let addr = self.values.len();
        self.values.push(Some(value));
        self.counts.push(1);
        assert(self@ =~= old(self)@.push(Some(ArcBox { value, count: 1 })));
        Ptr { addr }
    }

    /// Whether `p` names a cell that has not been freed.
    fn is_live(&self, p: Ptr) -> (r: bool)
        requires
            self.wf(),
        ensures
            r == self.live(p),
    {
        p.addr != 0 && p.addr < self.values.len() && self.values[p.addr].is_some()
    }

    fn count(&self, p: Ptr) -> (r: usize)
        requires
            self.wf(),
            self.live(p),
        ensures
            r == self.cell(p).count,
    {
        self.counts[p.addr]
    }

    fn value_ref(&self, p: Ptr) -> (r: &T)
        requires
            self.wf(),
            self.live(p),
        ensures
            *r == self.cell(p).value,
    {
        assert(self.values@[p.addr as int] is Some);
        self.values[p.addr].as_ref().unwrap()
    }

    fn set_count(&mut self, p: Ptr, count: usize)
        requires
            old(self).wf(),
            old(self).live(p),
            count >= 1,
        ensures
            final(self).wf(),
            final(self)@ == old(self)@.update(
                p.addr as int,
                Some(ArcBox { value: old(self).cell(p).value, count }),
            ),
    {
        self.counts.set(p.addr, count);
        assert(self@ =~= old(self)@.update(
            p.addr as int,
            Some(ArcBox { value: old(self).cell(p).value, count }),
        ));
    }

    fn free(&mut self, p: Ptr)
        requires
            old(self).wf(),
            old(self).live(p),
        ensures
            final(self).wf(),
            final(self)@ == old(self)@.update(p.addr as int, None),
    {
        self.values.set(p.addr, None);
        self.counts.set(p.addr, 0);
        assert(self@ =~= old(self)@.update(p.addr as int, None));
    }

    fn replace(&mut self, p: Ptr, value: T) -> (r: T)
        requires
            old(self).wf(),
            old(self).live(p),
        ensures
            final(self).wf(),
            r == old(self).cell(p).value,
            final(self)@ == after_swap(old(self)@, p.addr as int, value),
    {
        self.values.push(Some(value));
        let prev = self.values.swap_remove(p.addr);
        assert(self@ =~= after_swap(old(self)@, p.addr as int, value));
        prev.unwrap()
    }
}

/// An owning handle to a cell of an `ArcHeap`; null once dropped.
pub struct Arc<T> {
    ptr: Ptr,
    marker: PhantomData<T>,
}

impl<T> View for Arc<T> {
    type V = Ptr;

    closed spec fn view(&self) -> Ptr {
        self.ptr
    }
}

impl<T> Arc<T> {
    /// Moves `value` into a new cell with one handle, and returns that handle.
    pub fn new(value: T, heap: &mut ArcHeap<T>) -> (r: Arc<T>)
        requires
            old(heap).wf(),
            old(heap)@.len() < usize::MAX,
        ensures
            final(heap).wf(),
            r@.addr == old(heap)@.len(),
            final(heap)@ == old(heap)@.push(Some(ArcBox { value, count: 1 })),
    {
        Arc::new_unchecked(value, heap)
    }

    /// Moves `value` into a new cell with one handle, and returns that handle.
    pub fn new_unchecked(value: T, heap: &mut ArcHeap<T>) -> (r: Arc<T>)
        requires
            old(heap).wf(),
            old(heap)@.len() < usize::MAX,
        ensures
            final(heap).wf(),
            r@.addr == old(heap)@.len(),
            final(heap)@ == old(heap)@.push(Some(ArcBox { value, count: 1 })),
    {
        let ptr = heap.allocate(value);
        Arc { ptr, marker: PhantomData }
    }

    /// The value of the cell, read-only; the count is not touched.
    pub fn borrow<'a>(&self, heap: &'a ArcHeap<T>) -> (r: &'a T)
        requires
            heap.wf(),
            heap.live(self@),
        ensures
            *r == heap.cell(self@).value,
    {
        heap.value_ref(self.ptr)
    }

    /// A new handle to the same cell; the count goes up by one.
    pub fn clone(&self, heap: &mut ArcHeap<T>) -> (r: Arc<T>)
        requires
            old(heap).wf(),
            old(heap).live(self@),
            old(heap).cell(self@).count < usize::MAX,
        ensures
            final(heap).wf(),
            r@ == self@,
            final(heap)@ == after_clone(old(heap)@, self@.addr as int),
    {
        let count = heap.count(self.ptr);
        heap.set_count(self.ptr, count + 1);
        Arc { ptr: self.ptr, marker: PhantomData }
    }

    /// Releases this handle and sets it to null. The count of its cell goes
    /// down by one, and the release that finds the last handle frees the cell
    /// and returns `true`. A null handle, or one whose cell is already freed,
    /// changes nothing.
    pub fn drop(&mut self, heap: &mut ArcHeap<T>) -> (freed: bool)
        requires
            old(heap).wf(),
        ensures
            final(heap).wf(),
            final(self)@.addr == 0,
            old(heap).live(old(self)@) ==> {
                &&& freed == release_frees(old(heap).cell(old(self)@).count as nat)
                &&& final(heap)@ == after_release(old(heap)@, old(self)@.addr as int)
            },
            !old(heap).live(old(self)@) ==> !freed && final(heap)@ == old(heap)@,
    {
        let p = self.ptr;
        self.ptr = null();
        if !heap.is_live(p) {
            return false;
        }
        let count = heap.count(p);
        if count == 1 {
            heap.free(p);
            true
        } else {
            heap.set_count(p, count - 1);
            false
        }
    }

    /// A handle to a new cell whose value is a clone of this one's; the
    /// original cell is left as it was.
    pub fn deep_clone(&self, heap: &mut ArcHeap<T>) -> (r: Arc<T>)
        where
            T: Clone,
        requires
            old(heap).wf(),
            old(heap).live(self@),
            old(heap)@.len() < usize::MAX,
        ensures
            final(heap).wf(),
            r@.addr == old(heap)@.len(),
            r@ != self@,
            final(heap)@.len() == old(heap)@.len() + 1,
            final(heap)@.drop_last() == old(heap)@,
            final(heap).cell(r@).count == 1,
            final(heap)@[r@.addr as int] is Some,
            cloned(old(heap).cell(self@).value, final(heap).cell(r@).value),
    {
        let value = self.borrow(heap).clone();
        let r = Arc::new_unchecked(value, heap);
        assert(heap@.drop_last() =~= old(heap)@);
        r
    }

    /// Whether the two cells' values are equal, by the values' own `==`.
    pub fn eq(&self, other: &Arc<T>, heap: &ArcHeap<T>) -> (r: bool)
        where
            T: PartialEq,
        requires
            heap.wf(),
            heap.live(self@),
            heap.live(other@),
        ensures
            T::obeys_eq_spec() ==> r == heap.cell(self@).value.eq_spec(&heap.cell(other@).value),
    {
        self.borrow(heap).eq(other.borrow(heap))
    }

    /// Whether the two cells' values differ, by the values' own `!=`.
    pub fn ne(&self, other: &Arc<T>, heap: &ArcHeap<T>) -> (r: bool)
        where
            T: PartialEq,
        requires
            heap.wf(),
            heap.live(self@),
            heap.live(other@),
        ensures
            T::obeys_eq_spec() ==> r == !heap.cell(self@).value.eq_spec(&heap.cell(other@).value),
    {
        self.borrow(heap).ne(other.borrow(heap))
    }

    /// Whether this cell's value is less than the other's.
    pub fn lt(&self, other: &Arc<T>, heap: &ArcHeap<T>) -> (r: bool)
        where
            T: PartialOrd,
        requires
            heap.wf(),
            heap.live(self@),
            heap.live(other@),
        ensures
            T::obeys_partial_cmp_spec() ==> (r <==> heap.cell(self@).value.partial_cmp_spec(
                &heap.cell(other@).value,
            ) == Some(Ordering::Less)),
    {
        self.borrow(heap).lt(other.borrow(heap))
    }

    /// Whether this cell's value is less than or equal to the other's.
    pub fn le(&self, other: &Arc<T>, heap: &ArcHeap<T>) -> (r: bool)
        where
            T: PartialOrd,
        requires
            heap.wf(),
            heap.live(self@),
            heap.live(other@),
        ensures
            T::obeys_partial_cmp_spec() ==> (r <==> heap.cell(self@).value.partial_cmp_spec(
                &heap.cell(other@).value,
            ) matches Some(Ordering::Less | Ordering::Equal)),
    {
        self.borrow(heap).le(other.borrow(heap))
    }

    /// Whether this cell's value is greater than the other's.
    pub fn gt(&self, other: &Arc<T>, heap: &ArcHeap<T>) -> (r: bool)
        where
            T: PartialOrd,
        requires
            heap.wf(),
            heap.live(self@),
            heap.live(other@),
        ensures
            T::obeys_partial_cmp_spec() ==> (r <==> heap.cell(self@).value.partial_cmp_spec(
                &heap.cell(other@).value,
            ) == Some(Ordering::Greater)),
    {
        self.borrow(heap).gt(other.borrow(heap))
    }

    /// Whether this cell's value is greater than or equal to the other's.
    pub fn ge(&self, other: &Arc<T>, heap: &ArcHeap<T>) -> (r: bool)
        where
            T: PartialOrd,
        requires
            heap.wf(),
            heap.live(self@),
            heap.live(other@),
        ensures
            T::obeys_partial_cmp_spec() ==> (r <==> heap.cell(self@).value.partial_cmp_spec(
                &heap.cell(other@).value,
            ) matches Some(Ordering::Greater | Ordering::Equal)),
    {
        self.borrow(heap).ge(other.borrow(heap))
    }
}

/// A handle whose cell's value can be exchanged as a whole. Exclusive access
/// to the arena, which `swap` takes, orders all exchanges on a cell one after
/// another.
pub struct MutexArc<T> {
    ptr: Arc<T>,
}

impl<T> View for MutexArc<T> {
    type V = Ptr;

    closed spec fn view(&self) -> Ptr {
        self.ptr@
    }
}

impl<T> MutexArc<T> {
    /// Moves `value` into a new cell with one handle, and returns that handle.
    pub fn new(value: T, heap: &mut ArcHeap<T>) -> (r: MutexArc<T>)
        requires
            old(heap).wf(),
            old(heap)@.len() < usize::MAX,
        ensures
            final(heap).wf(),
            r@.addr == old(heap)@.len(),
            final(heap)@ == old(heap)@.push(Some(ArcBox { value, count: 1 })),
    {
        MutexArc { ptr: Arc::new_unchecked(value, heap) }
    }

    /// Stores `value` in the cell and returns the value it replaced; the count
    /// is not touched.
    pub fn swap(&self, heap: &mut ArcHeap<T>, value: T) -> (r: T)
        requires
            old(heap).wf(),
            old(heap).live(self@),
        ensures
            final(heap).wf(),
            r == old(heap).cell(self@).value,
            final(heap)@ == after_swap(old(heap)@, self@.addr as int, value),
    {
        heap.replace(self.ptr.ptr, value)
    }

    /// A new handle to the same cell; the count goes up by one.
    pub fn clone(&self, heap: &mut ArcHeap<T>) -> (r: MutexArc<T>)
        requires
            old(heap).wf(),
            old(heap).live(self@),
            old(heap).cell(self@).count < usize::MAX,
        ensures
            final(heap).wf(),
            r@ == self@,
            final(heap)@ == after_clone(old(heap)@, self@.addr as int),
    {
        MutexArc { ptr: self.ptr.clone(heap) }
    }

    /// Releases this handle as `Arc::drop` does.
    pub fn drop(&mut self, heap: &mut ArcHeap<T>) -> (freed: bool)
        requires
            old(heap).wf(),
        ensures
            final(heap).wf(),
            final(self)@.addr == 0,
            old(heap).live(old(self)@) ==> {
                &&& freed == release_frees(old(heap).cell(old(self)@).count as nat)
                &&& final(heap)@ == after_release(old(heap)@, old(self)@.addr as int)
            },
            !old(heap).live(old(self)@) ==> !freed && final(heap)@ == old(heap)@,
    {
        self.ptr.drop(heap)
    }
}

/// The cells after `n` clones of a handle to the cell at `a`.
pub open spec fn after_clones<T>(cells: Seq<Option<ArcBox<T>>>, a: int, n: nat) -> Seq<
    Option<ArcBox<T>>,
>
    decreases n,
{
    if n == 0 {
        cells
    } else {
        after_clone(after_clones(cells, a, (n - 1) as nat), a)
    }
}

/// The cells after `k` releases of handles to the cell at `a`.
pub open spec fn after_releases<T>(cells: Seq<Option<ArcBox<T>>>, a: int, k: nat) -> Seq<
    Option<ArcBox<T>>,
>
    decreases k,
{
    if k == 0 {
        cells
    } else {
        after_release(after_releases(cells, a, (k - 1) as nat), a)
    }
}

proof fn lemma_clones_count<T>(cells: Seq<Option<ArcBox<T>>>, a: int, v: T, n: nat)
    requires
        0 <= a < cells.len(),
        cells[a] == Some(ArcBox { value: v, count: 1 }),
        n < usize::MAX,
    ensures
        after_clones(cells, a, n) == cells.update(a, Some(ArcBox { value: v, count: (n + 1) as usize })),
    decreases n,
{
    if n == 0 {
        assert(cells.update(a, Some(ArcBox { value: v, count: 1 })) =~= cells);
    } else {
        lemma_clones_count(cells, a, v, (n - 1) as nat);
        assert(after_clones(cells, a, n) =~= cells.update(
            a,
            Some(ArcBox { value: v, count: (n + 1) as usize }),
        ));
    }
}

proof fn lemma_releases_count<T>(cells: Seq<Option<ArcBox<T>>>, a: int, v: T, m: nat, k: nat)
    requires
        0 <= a < cells.len(),
        1 <= m <= usize::MAX,
        k < m,
    ensures
        after_releases(cells.update(a, Some(ArcBox { value: v, count: m as usize })), a, k)
            == cells.update(a, Some(ArcBox { value: v, count: (m - k) as usize })),
    decreases k,
{
    let start = cells.update(a, Some(ArcBox { value: v, count: m as usize }));
    if k == 0 {
        assert(start =~= cells.update(a, Some(ArcBox { value: v, count: (m - k) as usize })));
    } else {
        lemma_releases_count(cells, a, v, m, (k - 1) as nat);
        assert(after_releases(start, a, k) =~= cells.update(
            a,
            Some(ArcBox { value: v, count: (m - k) as usize }),
        ));
    }
}

/// After a cell is made with one handle and `n` clones follow, the first `n`
/// of `n + 1` releases keep the cell and the last one frees it: the cell is
/// freed once, at the last release, and every other cell is untouched.
pub proof fn lemma_last_release_frees_once<T>(cells: Seq<Option<ArcBox<T>>>, a: int, v: T, n: nat)
    requires
        0 <= a < cells.len(),
        cells[a] == Some(ArcBox { value: v, count: 1 }),
        n < usize::MAX,
    ensures
        forall|k: nat|
            k <= n ==> {
                let before = #[trigger] after_releases(after_clones(cells, a, n), a, k);
                &&& before[a] is Some
                &&& before[a]->0.value == v
                &&& release_frees(before[a]->0.count as nat) <==> k == n
            },
        after_releases(after_clones(cells, a, n), a, n + 1) == cells.update(a, None),
{
    lemma_clones_count(cells, a, v, n);
    assert forall|k: nat| k <= n implies {
        let before = #[trigger] after_releases(after_clones(cells, a, n), a, k);
        &&& before[a] is Some
        &&& before[a]->0.value == v
        &&& release_frees(before[a]->0.count as nat) <==> k == n
    } by {
        lemma_releases_count(cells, a, v, n + 1, k);
    }
    lemma_releases_count(cells, a, v, n + 1, n);
    assert(after_releases(after_clones(cells, a, n), a, n + 1) =~= cells.update(a, None));
}

/// The cell that `Arc::new` makes holds the value it was given, so a borrow
/// through the new handle reads that value.
pub proof fn lemma_new_then_borrow<T>(before: ArcHeap<T>, after: ArcHeap<T>, p: Ptr, v: T)
    requires
        before.wf(),
        after@ == before@.push(Some(ArcBox { value: v, count: 1 })),
        p.addr == before@.len(),
    ensures
        after.live(p),
        after.cell(p).value == v,
{
}

/// Cells at different addresses are independent: exchanging the value of one
/// leaves every other cell, a deep clone's original among them, as it was.
pub proof fn lemma_swap_leaves_other_cells<T>(cells: Seq<Option<ArcBox<T>>>, a: int, b: int, v: T)
    requires
        0 <= a < cells.len(),
        0 <= b < cells.len(),
        a != b,
    ensures
        after_swap(cells, a, v)[b] == cells[b],
        after_swap(cells, a, v)[a]->0.value == v,
{
}

} // verus!
