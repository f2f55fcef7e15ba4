//! Views: disjoint windows of one mapping, each owned on its own, that
//! together decide when the mapping is unmapped.
use vstd::prelude::*;
use crate::inner::{flush_of, unmap_of, FlushCall, MmapInner, Region, UnmapCall};
use crate::mmap::MmapMut;
use crate::protection::Platform;

verus! {

/// Where a view lies in its mapping.
#[derive(Clone, Copy, Debug, PartialEq, Eq, Hash, Structural)]
pub struct Window {
    /// Index of the view among the views of its mapping.
    pub view: usize,
    /// Offset of the view in the mapping's window.
    pub offset: usize,
    /// Length of the view.
    pub len: usize,
}

impl Window {
    /// Address of byte `i` of the view, in mapping `m`.
    pub open spec fn addr(self, m: Region, i: int) -> int {
        m.addr(self.offset + i)
    }

    /// Whether byte `i` of the mapping's window lies in the view.
    pub open spec fn covers(self, i: int) -> bool {
        self.offset <= i < self.offset + self.len
    }
}

/// A window of a shared mapping, owned on its own.
pub struct MmapSliver {
    window: Window,
}

impl View for MmapSliver {
    type V = Window;

    closed spec fn view(&self) -> Window {
        self.window
    }
}

impl MmapSliver {
    /// Length of the view.
    pub fn len(&self) -> (r: usize)
        ensures
            r == self@.len,
    {
        self.window.len
    }

    /// Offset of the view in its mapping's window.
    pub fn offset(&self) -> (r: usize)
        ensures
            r == self@.offset,
    {
        self.window.offset
    }

    /// Address of the first byte of the view, which lies in `shared`.
    pub fn ptr(&self, shared: &SharedMapping) -> (r: usize)
        requires
            self@.offset + self@.len <= shared.region().len,
        ensures
            r == self@.addr(shared.region(), 0),
    {
        let _ = shared.inner.len();
        shared.inner.ptr() + self.window.offset
    }

    /// The `msync` call that flushes the view's bytes and waits until they
    /// are durable. It covers the view's own bytes, and may cover more.
    pub fn flush(&self, shared: &SharedMapping, platform: &Platform) -> (r: FlushCall)
        requires
            self@.offset + self@.len <= shared.region().len,
            platform.wf(),
        ensures
            r == flush_of(shared.region(), self@.offset as int, self@.len as int, true, *platform),
    {
        shared.inner.flush_call(self.window.offset, self.window.len, true, platform)
    }

    /// The `msync` call that starts flushing the view's bytes without
    /// waiting. It covers the view's own bytes, and may cover more.
    pub fn flush_async(&self, shared: &SharedMapping, platform: &Platform) -> (r: FlushCall)
        requires
            self@.offset + self@.len <= shared.region().len,
            platform.wf(),
        ensures
            r == flush_of(shared.region(), self@.offset as int, self@.len as int, false, *platform),
    {
        shared.inner.flush_call(self.window.offset, self.window.len, false, platform)
    }

    /// Index of the view among the views of its mapping.
    pub fn view_index(&self) -> (r: usize)
        ensures
            r == self@.view,
    {
        self.window.view
    }
}

/// Number of views still alive.
pub open spec fn count_live(live: Seq<bool>) -> nat
    decreases live.len(),
{
    if live.len() == 0 {
        0
    } else {
        count_live(live.drop_last()) + if live.last() {
            1nat
        } else {
            0nat
        }
    }
}

/// Releasing view `i`: the views still alive afterwards, and whether the
/// mapping is to be unmapped now (the view was alive and was the last one).
pub open spec fn release_step(live: Seq<bool>, i: int) -> (Seq<bool>, bool) {
    if 0 <= i < live.len() && live[i] {
        let next = live.update(i, false);
        (next, count_live(next) == 0)
    } else {
        (live, false)
    }
}

/// How many times the mapping is unmapped when the views are released in
/// `order`, starting with the views of `live` alive.
pub open spec fn unmaps(live: Seq<bool>, order: Seq<int>) -> nat
    decreases order.len(),
{
    if order.len() == 0 {
        0
    } else {
        let (next, now) = release_step(live, order[0]);
        (if now {
            1nat
        } else {
            0nat
        }) + unmaps(next, order.drop_first())
    }
}

/// Whether `[a.0, a.0 + a.1)` and `[b.0, b.0 + b.1)` share no byte.
pub open spec fn apart(a: (usize, usize), b: (usize, usize)) -> bool {
    a.1 == 0 || b.1 == 0 || a.0 + a.1 <= b.0 || b.0 + b.1 <= a.0
}

/// Whether every range `(offset, length)` lies in a window of `len` bytes
/// and no two of them share a byte.
pub open spec fn carvable(len: usize, ranges: Seq<(usize, usize)>) -> bool {
    &&& forall|i: int| 0 <= i < ranges.len() ==> #[trigger] ranges[i].0 + ranges[i].1 <= len
    &&& forall|i: int, j: int|
        0 <= i < j < ranges.len() ==> apart(#[trigger] ranges[i], #[trigger] ranges[j])
}

/// The view of range `(offset, length)` as view `i`.
pub open spec fn window_of(i: int, range: (usize, usize)) -> Window {
    Window { view: i as usize, offset: range.0, len: range.1 }
}

/// The first view of a split at `k`: bytes `[0, k)`.
pub open spec fn split_left(k: usize) -> Window {
    Window { view: 0, offset: 0, len: k }
}

/// The second view of a split at `k` of a window of `len` bytes: bytes
/// `[k, len)`.
pub open spec fn split_right(len: usize, k: usize) -> Window {
    Window { view: 1, offset: k, len: (len - k) as usize }
}

/// One mapping shared by views. It is unmapped when the last of its views
/// is released, and only then.
pub struct SharedMapping {
    inner: MmapInner,
    live: Vec<bool>,
    remaining: usize,
}

impl SharedMapping {
    /// The count of views alive is kept with the views.
    pub closed spec fn wf(&self) -> bool {
        self.remaining == count_live(self.live@)
    }

    /// The mapping that the views share.
    pub closed spec fn region(&self) -> Region {
        self.inner@
    }

    /// For each view, whether it is still alive.
    pub closed spec fn live(&self) -> Seq<bool> {
        self.live@
    }

    /// Number of views still alive.
    pub fn remaining(&self) -> (r: usize)
        requires
            self.wf(),
        ensures
            r == count_live(self.live()),
    {
        self.remaining
    }

    /// Whether view `s` lies in this mapping.
    pub fn holds(&self, s: &MmapSliver) -> (r: bool)
        ensures
            r == (s@.offset + s@.len <= self.region().len && s@.view < self.live().len()),
    {
        s.window.view < self.live.len() && s.window.len <= self.inner.len() && s.window.offset
            <= self.inner.len() - s.window.len
    }

    /// Releases view `s`. Returns the `munmap` call when `s` was the last view
    /// alive, and `None` otherwise; a view already released changes nothing.
    pub fn release(&mut self, s: MmapSliver) -> (r: Option<UnmapCall>)
        requires
            old(self).wf(),
        ensures
            final(self).wf(),
            (final(self).live(), r is Some) == release_step(old(self).live(), s@.view as int),
            count_live(final(self).live()) == count_live(old(self).live()) - (if s@.view < old(
                self,
            ).live().len() && old(self).live()[s@.view as int] {
                1int
            } else {
                0int
            }),
            r is Some <==> count_live(old(self).live()) > 0 && count_live(final(self).live()) == 0,
            final(self).region() == old(self).region(),
            r matches Some(u) ==> u == unmap_of(old(self).region()),
    {
        let i = s.window.view;
        if i >= self.live.len() || !self.live[i] {
            return Option::None;
        }
        proof {
            lemma_count_clear(self.live@, i as int);
        }
        self.live.set(i, false);
        self.remaining = self.remaining - 1;
        if self.remaining == 0 {
            Some(self.inner.unmap_call())
        } else {
            Option::None
        }
    }
}

/// All `n` views alive.
pub open spec fn all_live(n: nat) -> Seq<bool> {
    Seq::new(n, |i: int| true)
}

/// Counting the views alive: all of `n` views.
proof fn lemma_count_all(n: nat)
    ensures
        count_live(all_live(n)) == n,
    decreases n,
{
    if n > 0 {
        assert(all_live(n).drop_last() =~= all_live((n - 1) as nat));
        lemma_count_all((n - 1) as nat);
    }
}

/// No view is alive exactly when the count is zero.
proof fn lemma_count_zero(live: Seq<bool>)
    ensures
        count_live(live) == 0 <==> forall|i: int| 0 <= i < live.len() ==> !#[trigger] live[i],
        count_live(live) <= live.len(),
    decreases live.len(),
{
    if live.len() > 0 {
        let d = live.drop_last();
        lemma_count_zero(d);
        assert forall|i: int| 0 <= i < d.len() implies d[i] == live[i] by {}
        if count_live(live) == 0 {
            assert forall|i: int| 0 <= i < live.len() implies !#[trigger] live[i] by {
                if i < d.len() {
                    assert(d[i] == live[i]);
                }
            }
        }
        if forall|i: int| 0 <= i < live.len() ==> !#[trigger] live[i] {
            assert(!live[live.len() - 1]);
            assert forall|i: int| 0 <= i < d.len() implies !#[trigger] d[i] by {
                assert(d[i] == live[i]);
            }
        }
    }
}

/// Clearing a live view lowers the count by one.
proof fn lemma_count_clear(live: Seq<bool>, i: int)
    requires
        0 <= i < live.len(),
        live[i],
    ensures
        count_live(live.update(i, false)) + 1 == count_live(live),
    decreases live.len(),
{
    let u = live.update(i, false);
    if i == live.len() - 1 {
        assert(u.drop_last() =~= live.drop_last());
    } else {
        assert(u.drop_last() =~= live.drop_last().update(i, false));
        lemma_count_clear(live.drop_last(), i);
    }
}

/// Releasing views in any order, from any state, unmaps the mapping at most
/// once: there is never a second unmap.
pub proof fn lemma_unmapped_at_most_once(live: Seq<bool>, order: Seq<int>)
    ensures
        unmaps(live, order) <= 1,
        count_live(live) == 0 ==> unmaps(live, order) == 0,
    decreases order.len(),
{
    if order.len() > 0 {
        let (next, now) = release_step(live, order[0]);
        lemma_unmapped_at_most_once(next, order.drop_first());
        lemma_count_zero(live);
        if 0 <= order[0] < live.len() && live[order[0]] {
            lemma_count_clear(live, order[0]);
        }
    }
}

/// Releasing the views alive in `live` in `order`, where `order` names each
/// of them exactly once, unmaps the mapping exactly once.
proof fn lemma_release_all(live: Seq<bool>, order: Seq<int>)
    requires
        order.len() > 0,
        order.no_duplicates(),
        forall|k: int| 0 <= k < order.len() ==> 0 <= #[trigger] order[k] < live.len(),
        forall|i: int| 0 <= i < live.len() ==> (live[i] <==> order.contains(i)),
    ensures
        unmaps(live, order) == 1,
    decreases order.len(),
{
    let i = order[0];
    let next = live.update(i, false);
    let rest = order.drop_first();
    assert(order.contains(i));
    assert forall|j: int| 0 <= j < next.len() implies (next[j] <==> rest.contains(j)) by {
        if rest.contains(j) {
            let k = choose|k: int| 0 <= k < rest.len() && rest[k] == j;
            assert(order[k + 1] == j);
            assert(j != i);
        }
        if next[j] {
            assert(live[j] && j != i);
            assert(order.contains(j));
            let k = choose|k: int| 0 <= k < order.len() && order[k] == j;
            assert(k != 0);
            assert(rest[k - 1] == j);
        }
    }
    lemma_count_zero(next);
    if rest.len() == 0 {
        assert forall|j: int| 0 <= j < next.len() implies !#[trigger] next[j] by {
            assert(!rest.contains(j));
        }
        lemma_unmapped_at_most_once(next, rest);
    } else {
        assert(next[rest[0]]) by {
            assert(rest.contains(rest[0]));
        }
        assert forall|k: int| 0 <= k < rest.len() implies 0 <= #[trigger] rest[k] < next.len() by {
            assert(rest[k] == order[k + 1]);
        }
        lemma_release_all(next, rest);
    }
}

/// Releasing all `n` views of a mapping, in any order, unmaps it exactly once.
pub proof fn lemma_unmapped_exactly_once(n: nat, order: Seq<int>)
    requires
        n > 0,
        order.len() == n,
        order.no_duplicates(),
        forall|k: int| 0 <= k < order.len() ==> 0 <= #[trigger] order[k] < n,
    ensures
        unmaps(all_live(n), order) == 1,
{
    let live = all_live(n);
    assert forall|i: int| 0 <= i < live.len() implies (live[i] <==> order.contains(i)) by {
        let s = Set::new(|j: int| 0 <= j < n);
        let t = order.to_set();
        assert(t.subset_of(s)) by {
            assert forall|j: int| t.contains(j) implies s.contains(j) by {
                let k = choose|k: int| 0 <= k < order.len() && order[k] == j;
            }
        }
        order.unique_seq_to_set();
        vstd::set_lib::lemma_int_range(0, n as int);
        assert(s =~= vstd::set_lib::set_int_range(0, n as int));
        vstd::set_lib::lemma_subset_equality(t, s);
        assert(s.contains(i));
        assert(t.contains(i));
    }
    lemma_release_all(live, order);
}

/// Splits a mutable mapping at byte `offset` into two views: bytes
/// `[0, offset)` and bytes `[offset, len)`.
pub fn split_at(mmap: MmapMut, offset: usize) -> (r: (SharedMapping, MmapSliver, MmapSliver))
    requires
        offset < mmap@.len,
    ensures
        r.0.wf(),
        r.0.region() == mmap@,
        r.0.live() == all_live(2),
        count_live(r.0.live()) == 2,
        r.1@ == split_left(offset),
        r.2@ == split_right(mmap@.len, offset),
{
    let len = mmap.len();
    let inner = mmap.into_inner();
    let mut live: Vec<bool> = Vec::new();
    live.push(true);
    live.push(true);
    proof {
        assert(live@ =~= all_live(2));
        lemma_count_all(2);
    }
    let shared = SharedMapping { inner, live, remaining: 2 };
    let left = MmapSliver { window: Window { view: 0, offset: 0, len: offset } };
    let right = MmapSliver { window: Window { view: 1, offset, len: len - offset } };
    (shared, left, right)
}

/// Whether ranges `(offset, length)` can be carved from a window of `len`
/// bytes: each lies inside it and no two share a byte.
pub fn carve_allowed(len: usize, ranges: &Vec<(usize, usize)>) -> (r: bool)
    ensures
        r == carvable(len, ranges@),
{
    let n = ranges.len();
    let mut i: usize = 0;
    while i < n
        invariant
            n == ranges@.len(),
            i <= n,
            forall|a: int| 0 <= a < i ==> #[trigger] ranges@[a].0 + ranges@[a].1 <= len,
            forall|a: int, b: int| 0 <= a < b < i ==> apart(#[trigger] ranges@[a], #[trigger] ranges@[b]),
        decreases n - i,
    {
        let (off, l) = ranges[i];
        if l > len || off > len - l {
            return false;
        }
        let mut j: usize = 0;
        while j < i
            invariant
                n == ranges@.len(),
                j <= i < n,
                (off, l) == ranges@[i as int],
                forall|a: int| 0 <= a < j ==> apart(#[trigger] ranges@[a], ranges@[i as int]),
            decreases i - j,
        {
            let (o2, l2) = ranges[j];
            if !(l == 0 || l2 == 0 || o2 as u128 + l2 as u128 <= off as u128 || off as u128 + l as u128
                <= o2 as u128) {
                return false;
            }
            j = j + 1;
        }
        i = i + 1;
    }
    true
}

/// Carves a mutable mapping into one view per range `(offset, length)`, all
/// sharing the mapping. The ranges must lie in the mapping and share no byte
/// (see `carve_allowed`), and there must be at least one: a mapping without
/// views would never be released.
pub fn carve(mmap: MmapMut, ranges: Vec<(usize, usize)>) -> (r: (SharedMapping, Vec<MmapSliver>))
    requires
        carvable(mmap@.len, ranges@),
        ranges@.len() > 0,
    ensures
        r.0.wf(),
        r.0.region() == mmap@,
        r.0.live() == all_live(ranges@.len()),
        count_live(r.0.live()) == ranges@.len(),
        r.1@.len() == ranges@.len(),
        forall|i: int| 0 <= i < ranges@.len() ==> (#[trigger] r.1@[i])@ == window_of(i, ranges@[i]),
{
    let inner = mmap.into_inner();
    let n = ranges.len();
    let mut views: Vec<MmapSliver> = Vec::new();
    let mut live: Vec<bool> = Vec::new();
    let mut i: usize = 0;
    while i < n
        invariant
            n == ranges@.len(),
            i <= n,
            views@.len() == i,
            live@ =~= all_live(i as nat),
            forall|k: int| 0 <= k < i ==> (#[trigger] views@[k])@ == window_of(k, ranges@[k]),
        decreases n - i,
    {
        let (offset, len) = ranges[i];
        views.push(MmapSliver { window: Window { view: i, offset, len } });
        live.push(true);
        i = i + 1;
    }
    proof {
        lemma_count_all(n as nat);
    }
    let shared = SharedMapping { inner, live, remaining: n };
    (shared, views)
}

/// A split at `k` gives views of `k` and `len - k` bytes that lie side by
/// side: byte `j` of the first view is byte `j` of the mapping, byte `j` of
/// the second is byte `k + j`, and each byte of the mapping lies in exactly
/// one of them.
pub proof fn lemma_split_views(m: Region, k: usize)
    requires
        k < m.len,
    ensures
        split_left(k).len == k,
        split_right(m.len, k).len == m.len - k,
        forall|j: int| 0 <= j < k ==> #[trigger] split_left(k).addr(m, j) == m.addr(j),
        forall|j: int| 0 <= j < m.len - k ==> #[trigger] split_right(m.len, k).addr(m, j) == m.addr(k + j),
        forall|i: int| 0 <= i < m.len ==> (#[trigger] split_left(k).covers(i) != split_right(m.len, k).covers(i)),
{
}

} // verus!
