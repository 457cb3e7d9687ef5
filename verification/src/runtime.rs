//! A single-threaded observable-cell runtime.
//!
//! Storage comes in two kinds: a [`ReactiveCell`] holds one value, a
//! [`ReactiveStore`] holds a row of slots that share one lifetime.  Both
//! keep a list of subscribed observers and a version counter that is
//! bumped on every notifying write.  Observers are plain run counters:
//! a notification is modelled as bumping the counter of every subscriber
//! exactly once.

use vstd::prelude::*;

verus! {

/// Identifies one reactive cell of a [`Runtime`].
#[derive(Clone, Copy, PartialEq, Eq, Structural)]
pub struct CellId(pub usize);

/// Identifies one reactive store of a [`Runtime`].
#[derive(Clone, Copy, PartialEq, Eq, Structural)]
pub struct StoreId(pub usize);

/// A read/write projection into one slot of a store.
#[derive(Clone, Copy, PartialEq, Eq, Structural)]
pub struct FieldRef {
    pub store: StoreId,
    pub slot: usize,
}

/// Identifies one observer (a tracked computation) of a [`Runtime`].
#[derive(Clone, Copy, PartialEq, Eq, Structural)]
pub struct ObserverId(pub usize);

/// One observable value together with its subscribers.
pub struct ReactiveCell<T> {
    pub value: T,
    pub disposed: bool,
    pub version: u64,
    pub subs: Vec<usize>,
}

/// A row of observable slots sharing one lifetime and one subscriber list.
pub struct ReactiveStore<T> {
    pub values: Vec<T>,
    pub disposed: bool,
    pub version: u64,
    pub subs: Vec<usize>,
}

/// The arbiter of all reactive state: cells, stores and observer run
/// counters.  Handles (`CellId`, `FieldRef`, `ObserverId`) are small
/// copyable descriptors; every operation goes through the runtime.
pub struct Runtime<T> {
    pub cells: Vec<ReactiveCell<T>>,
    pub stores: Vec<ReactiveStore<T>>,
    pub runs: Vec<u64>,
}

/// The version counter after one more notifying write.
pub open spec fn next_version(v: u64) -> u64 {
    if v == u64::MAX {
        0
    } else {
        (v + 1) as u64
    }
}

/// Whether observer `o` occurs in the subscriber list `subs`.
pub open spec fn has_sub(subs: Seq<usize>, o: usize) -> bool {
    exists|k: int| 0 <= k < subs.len() && subs[k] == o
}

/// Whether observer `o` occurs among the first `j` entries of `subs`.
pub open spec fn has_sub_upto(subs: Seq<usize>, j: int, o: usize) -> bool {
    exists|k: int| 0 <= k < j && k < subs.len() && subs[k] == o
}

/// A well-formed subscriber list: every entry is a live observer index
/// and no observer is listed twice.
pub open spec fn wf_subs(subs: Seq<usize>, n_observers: nat) -> bool {
    &&& forall|k: int| 0 <= k < subs.len() ==> (#[trigger] subs[k]) < n_observers
    &&& forall|j: int, k: int| 0 <= j < k < subs.len() ==> subs[j] != subs[k]
}

impl<T> Runtime<T> {
    /// Every subscriber list points at live observers, without duplicates.
    pub open spec fn wf(self) -> bool {
        &&& forall|i: int|
            0 <= i < self.cells.len() ==> wf_subs(
                (#[trigger] self.cells[i]).subs@,
                self.runs.len() as nat,
            )
        &&& forall|i: int|
            0 <= i < self.stores.len() ==> wf_subs(
                (#[trigger] self.stores[i]).subs@,
                self.runs.len() as nat,
            )
    }

    pub open spec fn valid_cell(self, c: CellId) -> bool {
        c.0 < self.cells.len()
    }

    pub open spec fn valid_store(self, s: StoreId) -> bool {
        s.0 < self.stores.len()
    }

    pub open spec fn valid_field(self, f: FieldRef) -> bool {
        &&& self.valid_store(f.store)
        &&& f.slot < self.stores[f.store.0 as int].values.len()
    }

    pub open spec fn valid_observer(self, o: ObserverId) -> bool {
        o.0 < self.runs.len()
    }

    pub open spec fn cell_value(self, c: CellId) -> T {
        self.cells[c.0 as int].value
    }

    pub open spec fn cell_disposed(self, c: CellId) -> bool {
        self.cells[c.0 as int].disposed
    }

    pub open spec fn cell_version(self, c: CellId) -> u64 {
        self.cells[c.0 as int].version
    }

    pub open spec fn cell_subs(self, c: CellId) -> Seq<usize> {
        self.cells[c.0 as int].subs@
    }

    pub open spec fn store_values(self, s: StoreId) -> Seq<T> {
        self.stores[s.0 as int].values@
    }

    pub open spec fn store_disposed(self, s: StoreId) -> bool {
        self.stores[s.0 as int].disposed
    }

    pub open spec fn store_version(self, s: StoreId) -> u64 {
        self.stores[s.0 as int].version
    }

    pub open spec fn store_subs(self, s: StoreId) -> Seq<usize> {
        self.stores[s.0 as int].subs@
    }

    /// The value a field projection derives from its parent store.
    pub open spec fn field_value(self, f: FieldRef) -> T {
        self.store_values(f.store)[f.slot as int]
    }

    pub open spec fn runs_of(self, o: ObserverId) -> u64 {
        self.runs[o.0 as int]
    }

    /// All cells but `c` hold the same state in `post` as in `pre`.
    pub open spec fn cells_unchanged_except(pre: Self, post: Self, c: CellId) -> bool {
        &&& post.cells.len() == pre.cells.len()
        &&& forall|i: int|
            0 <= i < pre.cells.len() && i != c.0 ==> post.cells[i] == pre.cells[i]
    }

    /// All stores but `s` hold the same state in `post` as in `pre`.
    pub open spec fn stores_unchanged_except(pre: Self, post: Self, s: StoreId) -> bool {
        &&& post.stores.len() == pre.stores.len()
        &&& forall|i: int|
            0 <= i < pre.stores.len() && i != s.0 ==> post.stores[i] == pre.stores[i]
    }
}

/// The executable counterpart of [`next_version`].
fn bump_version(v: u64) -> (r: u64)
    ensures
        r == next_version(v),
{
    if v == u64::MAX {
        0
    } else {
        v + 1
    }
}

/// Whether `subs@` holds `x`.
fn contains_usize(subs: &Vec<usize>, x: usize) -> (b: bool)
    ensures
        b == has_sub(subs@, x),
{
    let n = subs.len();
    let mut j: usize = 0;
    while j < n
        invariant
            j <= n,
            n == subs@.len(),
            !has_sub_upto(subs@, j as int, x),
        decreases n - j,
    {
        if subs[j] == x {
            assert(has_sub(subs@, x)) by {
                assert(0 <= j < subs@.len() && subs@[j as int] == x);
            }
            return true;
        }
        j += 1;
    }
    assert(!has_sub(subs@, x));
    false
}

/// Bumps the run counter of every observer in `subs` exactly once.
fn bump_all(runs: &mut Vec<u64>, subs: &Vec<usize>)
    requires
        wf_subs(subs@, old(runs)@.len() as nat),
    ensures
        final(runs)@.len() == old(runs)@.len(),
        forall|o: usize|
            o < old(runs)@.len() ==> #[trigger] final(runs)@[o as int] == (if has_sub(subs@, o) {
                next_version(old(runs)@[o as int])
            } else {
                old(runs)@[o as int]
            }),
{
    let n = subs.len();
    let mut j: usize = 0;
    while j < n
        invariant
            j <= n,
            n == subs@.len(),
            wf_subs(subs@, old(runs)@.len() as nat),
            runs@.len() == old(runs)@.len(),
            forall|o: usize|
                o < old(runs)@.len() ==> #[trigger] runs@[o as int] == (if has_sub_upto(
                    subs@,
                    j as int,
                    o,
                ) {
                    next_version(old(runs)@[o as int])
                } else {
                    old(runs)@[o as int]
                }),
        decreases n - j,
    {
        let t = subs[j];
        assert(!has_sub_upto(subs@, j as int, t));
        let nv: u64 = bump_version(runs[t]);
        runs[t] = nv;
        j += 1;
        assert forall|o: usize| o < old(runs)@.len() implies #[trigger] runs@[o as int] == (
        if has_sub_upto(subs@, j as int, o) {
            next_version(old(runs)@[o as int])
        } else {
            old(runs)@[o as int]
        }) by {
            if o == t {
                assert(has_sub_upto(subs@, j as int, t)) by {
                    assert(subs@[j - 1] == t);
                }
            } else {
                assert(has_sub_upto(subs@, j as int, o) == has_sub_upto(
                    subs@,
                    (j - 1) as int,
                    o,
                )) by {
                    if has_sub_upto(subs@, j as int, o) {
                        let k = choose|k: int| 0 <= k < j && k < subs@.len() && subs@[k] == o;
                        assert(k != j - 1);
                        assert(has_sub_upto(subs@, (j - 1) as int, o));
                    }
                }
            }
        }
    }
    assert forall|o: usize| o < old(runs)@.len() implies #[trigger] runs@[o as int] == (if has_sub(
        subs@,
        o,
    ) {
        next_version(old(runs)@[o as int])
    } else {
        old(runs)@[o as int]
    }) by {
        assert(has_sub_upto(subs@, n as int, o) == has_sub(subs@, o));
    }
}

impl<T: Copy> Runtime<T> {
    /// A fresh runtime with no cells, no stores and no observers.
    pub fn new() -> (rt: Runtime<T>)
        ensures
            rt.wf(),
            rt.cells.len() == 0,
            rt.stores.len() == 0,
            rt.runs.len() == 0,
    {
        Runtime { cells: Vec::new(), stores: Vec::new(), runs: Vec::new() }
    }

    /// Allocates a new live cell seeded with `value` and no subscribers.
    pub fn new_cell(&mut self, value: T) -> (c: CellId)
        requires
            old(self).wf(),
        ensures
            final(self).wf(),
            c.0 == old(self).cells.len(),
            final(self).valid_cell(c),
            final(self).cells.len() == old(self).cells.len() + 1,
            final(self).cell_value(c) == value,
            !final(self).cell_disposed(c),
            final(self).cell_version(c) == 0,
            final(self).cell_subs(c) == Seq::<usize>::empty(),
            forall|i: int|
                0 <= i < old(self).cells.len() ==> final(self).cells[i] == old(self).cells[i],
            final(self).stores@ == old(self).stores@,
            final(self).runs@ == old(self).runs@,
    {
        let c = CellId(self.cells.len());
        self.cells.push(ReactiveCell { value, disposed: false, version: 0, subs: Vec::new() });
        c
    }

    /// Allocates a new live store holding the given slots, with no
    /// subscribers.
    pub fn new_store(&mut self, values: Vec<T>) -> (s: StoreId)
        requires
            old(self).wf(),
        ensures
            final(self).wf(),
            s.0 == old(self).stores.len(),
            final(self).valid_store(s),
            final(self).stores.len() == old(self).stores.len() + 1,
            final(self).store_values(s) == values@,
            !final(self).store_disposed(s),
            final(self).store_version(s) == 0,
            final(self).store_subs(s) == Seq::<usize>::empty(),
            forall|i: int|
                0 <= i < old(self).stores.len() ==> final(self).stores[i] == old(self).stores[i],
            final(self).cells@ == old(self).cells@,
            final(self).runs@ == old(self).runs@,
    {
        let s = StoreId(self.stores.len());
        self.stores.push(ReactiveStore { values, disposed: false, version: 0, subs: Vec::new() });
        s
    }

    /// Registers a new observer whose run counter starts at zero.
    pub fn new_observer(&mut self) -> (o: ObserverId)
        requires
            old(self).wf(),
        ensures
            final(self).wf(),
            o.0 == old(self).runs.len(),
            final(self).valid_observer(o),
            final(self).runs.len() == old(self).runs.len() + 1,
            final(self).runs_of(o) == 0,
            forall|i: int|
                0 <= i < old(self).runs.len() ==> final(self).runs[i] == old(self).runs[i],
            final(self).cells@ == old(self).cells@,
            final(self).stores@ == old(self).stores@,
    {
        let o = ObserverId(self.runs.len());
        self.runs.push(0);
        o
    }

    /// Reads a live cell's value without establishing any dependency.
    pub fn read_cell(&self, c: CellId) -> (v: T)
        requires
            self.valid_cell(c),
            !self.cell_disposed(c),
        ensures
            v == self.cell_value(c),
    {
        self.cells[c.0].value
    }

    /// Derives a field's value from its parent store without establishing
    /// any dependency.
    pub fn read_field(&self, f: FieldRef) -> (v: T)
        requires
            self.valid_field(f),
            !self.store_disposed(f.store),
        ensures
            v == self.field_value(f),
    {
        self.stores[f.store.0].values[f.slot]
    }

    /// Whether the cell's owning scope has ended.
    pub fn is_cell_disposed(&self, c: CellId) -> (r: bool)
        requires
            self.valid_cell(c),
        ensures
            r == self.cell_disposed(c),
    {
        self.cells[c.0].disposed
    }

    /// Whether the store's owning scope has ended.
    pub fn is_store_disposed(&self, s: StoreId) -> (r: bool)
        requires
            self.valid_store(s),
        ensures
            r == self.store_disposed(s),
    {
        self.stores[s.0].disposed
    }

    /// The number of slots of a store.
    pub fn store_len(&self, s: StoreId) -> (n: usize)
        requires
            self.valid_store(s),
        ensures
            n == self.store_values(s).len(),
    {
        self.stores[s.0].values.len()
    }

    /// The cell's write counter: bumped once per notifying write.
    pub fn read_cell_version(&self, c: CellId) -> (v: u64)
        requires
            self.valid_cell(c),
        ensures
            v == self.cell_version(c),
    {
        self.cells[c.0].version
    }

    /// The store's write counter: bumped once per notifying write.
    pub fn read_store_version(&self, s: StoreId) -> (v: u64)
        requires
            self.valid_store(s),
        ensures
            v == self.store_version(s),
    {
        self.stores[s.0].version
    }

    /// How often the observer has been re-run by notifications.
    pub fn read_observer_runs(&self, o: ObserverId) -> (r: u64)
        requires
            self.valid_observer(o),
        ensures
            r == self.runs_of(o),
    {
        self.runs[o.0]
    }

    /// Registers `o` as a dependent of cell `c`; re-registering is a no-op.
    pub fn subscribe_cell(&mut self, c: CellId, o: ObserverId)
        requires
            old(self).wf(),
            old(self).valid_cell(c),
            old(self).valid_observer(o),
        ensures
            final(self).wf(),
            has_sub(final(self).cell_subs(c), o.0),
            final(self).cell_subs(c) == (if has_sub(old(self).cell_subs(c), o.0) {
                old(self).cell_subs(c)
            } else {
                old(self).cell_subs(c).push(o.0)
            }),
            final(self).cell_value(c) == old(self).cell_value(c),
            final(self).cell_version(c) == old(self).cell_version(c),
            final(self).cell_disposed(c) == old(self).cell_disposed(c),
            Self::cells_unchanged_except(*old(self), *final(self), c),
            final(self).stores@ == old(self).stores@,
            final(self).runs@ == old(self).runs@,
    {
        let present = contains_usize(&self.cells[c.0].subs, o.0);
        if !present {
            let cref = &mut self.cells[c.0];
            cref.subs.push(o.0);
            assert(has_sub(self.cell_subs(c), o.0)) by {
                assert(self.cell_subs(c)[self.cell_subs(c).len() - 1] == o.0);
            }
            assert(wf_subs(self.cell_subs(c), self.runs.len() as nat)) by {
                let subs = self.cell_subs(c);
                let old_subs = old(self).cell_subs(c);
                assert forall|j: int, k: int| 0 <= j < k < subs.len() implies subs[j] != subs[k] by {
                    if k == subs.len() - 1 {
                        assert(!has_sub(old_subs, o.0));
                        assert(old_subs[j] != o.0);
                    }
                }
            }
        }
    }

    /// Registers `o` as a dependent of store `s`; re-registering is a no-op.
    pub fn subscribe_store(&mut self, s: StoreId, o: ObserverId)
        requires
            old(self).wf(),
            old(self).valid_store(s),
            old(self).valid_observer(o),
        ensures
            final(self).wf(),
            has_sub(final(self).store_subs(s), o.0),
            final(self).store_subs(s) == (if has_sub(old(self).store_subs(s), o.0) {
                old(self).store_subs(s)
            } else {
                old(self).store_subs(s).push(o.0)
            }),
            final(self).store_values(s) == old(self).store_values(s),
            final(self).store_version(s) == old(self).store_version(s),
            final(self).store_disposed(s) == old(self).store_disposed(s),
            Self::stores_unchanged_except(*old(self), *final(self), s),
            final(self).cells@ == old(self).cells@,
            final(self).runs@ == old(self).runs@,
    {
        let present = contains_usize(&self.stores[s.0].subs, o.0);
        if !present {
            let sref = &mut self.stores[s.0];
            sref.subs.push(o.0);
            assert(has_sub(self.store_subs(s), o.0)) by {
                assert(self.store_subs(s)[self.store_subs(s).len() - 1] == o.0);
            }
            assert(wf_subs(self.store_subs(s), self.runs.len() as nat)) by {
                let subs = self.store_subs(s);
                let old_subs = old(self).store_subs(s);
                assert forall|j: int, k: int| 0 <= j < k < subs.len() implies subs[j] != subs[k] by {
                    if k == subs.len() - 1 {
                        assert(!has_sub(old_subs, o.0));
                        assert(old_subs[j] != o.0);
                    }
                }
            }
        }
    }

    /// Replaces the value of live cell `c` and notifies every subscriber
    /// exactly once.
    pub fn write_cell(&mut self, c: CellId, v: T)
        requires
            old(self).wf(),
            old(self).valid_cell(c),
            !old(self).cell_disposed(c),
        ensures
            final(self).wf(),
            final(self).cell_value(c) == v,
            final(self).cell_version(c) == next_version(old(self).cell_version(c)),
            !final(self).cell_disposed(c),
            final(self).cell_subs(c) == old(self).cell_subs(c),
            Self::cells_unchanged_except(*old(self), *final(self), c),
            final(self).stores@ == old(self).stores@,
            final(self).runs.len() == old(self).runs.len(),
            forall|o: usize|
                o < old(self).runs.len() ==> #[trigger] final(self).runs[o as int] == (if has_sub(
                    old(self).cell_subs(c),
                    o,
                ) {
                    next_version(old(self).runs[o as int])
                } else {
                    old(self).runs[o as int]
                }),
    {
        let cref = &mut self.cells[c.0];
        cref.value = v;
        cref.version = bump_version(cref.version);
        bump_all(&mut self.runs, &self.cells[c.0].subs);
    }

    /// Replaces the value of slot `f.slot` of live store `f.store` and
    /// notifies every subscriber of the store exactly once.
    pub fn write_field(&mut self, f: FieldRef, v: T)
        requires
            old(self).wf(),
            old(self).valid_field(f),
            !old(self).store_disposed(f.store),
        ensures
            final(self).wf(),
            final(self).store_values(f.store) == old(self).store_values(f.store).update(
                f.slot as int,
                v,
            ),
            final(self).field_value(f) == v,
            final(self).store_version(f.store) == next_version(old(self).store_version(f.store)),
            !final(self).store_disposed(f.store),
            final(self).store_subs(f.store) == old(self).store_subs(f.store),
            Self::stores_unchanged_except(*old(self), *final(self), f.store),
            final(self).cells@ == old(self).cells@,
            final(self).runs.len() == old(self).runs.len(),
            forall|o: usize|
                o < old(self).runs.len() ==> #[trigger] final(self).runs[o as int] == (if has_sub(
                    old(self).store_subs(f.store),
                    o,
                ) {
                    next_version(old(self).runs[o as int])
                } else {
                    old(self).runs[o as int]
                }),
    {
        let sref = &mut self.stores[f.store.0];
        let vref = &mut sref.values[f.slot];
        *vref = v;
        sref.version = bump_version(sref.version);
        bump_all(&mut self.runs, &self.stores[f.store.0].subs);
    }

    /// Ends the owning scope of cell `c`: further reads report unavailable
    /// and further writes are refused.
    pub fn dispose_cell(&mut self, c: CellId)
        requires
            old(self).wf(),
            old(self).valid_cell(c),
        ensures
            final(self).wf(),
            final(self).cell_disposed(c),
            final(self).cell_value(c) == old(self).cell_value(c),
            final(self).cell_version(c) == old(self).cell_version(c),
            final(self).cell_subs(c) == old(self).cell_subs(c),
            Self::cells_unchanged_except(*old(self), *final(self), c),
            final(self).stores@ == old(self).stores@,
            final(self).runs@ == old(self).runs@,
    {
        let cref = &mut self.cells[c.0];
        cref.disposed = true;
    }

    /// Ends the owning scope of store `s` and of every field over it.
    pub fn dispose_store(&mut self, s: StoreId)
        requires
            old(self).wf(),
            old(self).valid_store(s),
        ensures
            final(self).wf(),
            final(self).store_disposed(s),
            final(self).store_values(s) == old(self).store_values(s),
            final(self).store_version(s) == old(self).store_version(s),
            final(self).store_subs(s) == old(self).store_subs(s),
            Self::stores_unchanged_except(*old(self), *final(self), s),
            final(self).cells@ == old(self).cells@,
            final(self).runs@ == old(self).runs@,
    {
        let sref = &mut self.stores[s.0];
        sref.disposed = true;
    }
}

} // verus!
