//! The unified value handle: one read projection and one write projection
//! over the same storage, with an optional write-only notification sink.
//!
//! A [`Model`] is a small copyable descriptor.  Duplicating it never
//! duplicates storage: every duplicate observes and mutates the same
//! location of the [`Runtime`] it was built over.  The sink, when present,
//! is a different cell written after every successful mutation, so a
//! caller that supplied a value/callback pair sees each change exactly
//! once.

use crate::runtime::CellId;
use crate::runtime::FieldRef;
use crate::runtime::ObserverId;
use crate::runtime::Runtime;
use crate::runtime::has_sub;
use crate::runtime::next_version;
use vstd::prelude::*;

verus! {

/// The read capability of a handle: a plain cell or a store field.
#[derive(Clone, Copy)]
pub enum ModelRead {
    Signal(CellId),
    Field(FieldRef),
}

/// The write capability of a handle: a plain cell or a store field.
#[derive(Clone, Copy)]
pub enum ModelWrite {
    Signal(CellId),
    Field(FieldRef),
}

impl ModelRead {
    pub open spec fn valid_for<T>(self, rt: Runtime<T>) -> bool {
        match self {
            ModelRead::Signal(c) => rt.valid_cell(c),
            ModelRead::Field(f) => rt.valid_field(f),
        }
    }

    /// The most recently written value of the backing storage.
    pub open spec fn value<T>(self, rt: Runtime<T>) -> T {
        match self {
            ModelRead::Signal(c) => rt.cell_value(c),
            ModelRead::Field(f) => rt.field_value(f),
        }
    }

    pub open spec fn disposed<T>(self, rt: Runtime<T>) -> bool {
        match self {
            ModelRead::Signal(c) => rt.cell_disposed(c),
            ModelRead::Field(f) => rt.store_disposed(f.store),
        }
    }

    /// Reads without establishing a dependency; fails soft on disposed
    /// storage.
    pub fn get_untracked<T: Copy>(&self, rt: &Runtime<T>) -> (r: Option<T>)
        requires
            self.valid_for(*rt),
        ensures
            r == (if self.disposed(*rt) {
                None::<T>
            } else {
                Some(self.value(*rt))
            }),
    {
        match *self {
            ModelRead::Signal(c) => {
                if rt.is_cell_disposed(c) {
                    None
                } else {
                    Some(rt.read_cell(c))
                }
            },
            ModelRead::Field(f) => {
                if rt.is_store_disposed(f.store) {
                    None
                } else {
                    Some(rt.read_field(f))
                }
            },
        }
    }

    /// The subscription added by a tracked read, and nothing else changed.
    pub open spec fn track_post<T>(self, pre: Runtime<T>, post: Runtime<T>, obs: ObserverId) -> bool {
        match self {
            ModelRead::Signal(c) => {
                &&& post.cell_subs(c) == (if has_sub(pre.cell_subs(c), obs.0) {
                    pre.cell_subs(c)
                } else {
                    pre.cell_subs(c).push(obs.0)
                })
                &&& has_sub(post.cell_subs(c), obs.0)
                &&& post.cell_value(c) == pre.cell_value(c)
                &&& post.cell_version(c) == pre.cell_version(c)
                &&& post.cell_disposed(c) == pre.cell_disposed(c)
                &&& Runtime::cells_unchanged_except(pre, post, c)
                &&& post.stores@ == pre.stores@
                &&& post.runs@ == pre.runs@
            },
            ModelRead::Field(f) => {
                &&& post.store_subs(f.store) == (if has_sub(pre.store_subs(f.store), obs.0) {
                    pre.store_subs(f.store)
                } else {
                    pre.store_subs(f.store).push(obs.0)
                })
                &&& has_sub(post.store_subs(f.store), obs.0)
                &&& post.store_values(f.store) == pre.store_values(f.store)
                &&& post.store_version(f.store) == pre.store_version(f.store)
                &&& post.store_disposed(f.store) == pre.store_disposed(f.store)
                &&& Runtime::stores_unchanged_except(pre, post, f.store)
                &&& post.cells@ == pre.cells@
                &&& post.runs@ == pre.runs@
            },
        }
    }

    /// Reads and registers `obs` as a dependent of the backing storage,
    /// so that later writes re-run it; fails soft on disposed storage.
    pub fn get<T: Copy>(&self, rt: &mut Runtime<T>, obs: ObserverId) -> (r: Option<T>)
        requires
            old(rt).wf(),
            self.valid_for(*old(rt)),
            old(rt).valid_observer(obs),
        ensures
            final(rt).wf(),
            self.valid_for(*final(rt)),
            r == (if self.disposed(*old(rt)) {
                None::<T>
            } else {
                Some(self.value(*old(rt)))
            }),
            self.disposed(*old(rt)) ==> *final(rt) == *old(rt),
            !self.disposed(*old(rt)) ==> self.track_post(*old(rt), *final(rt), obs),
    {
        match *self {
            ModelRead::Signal(c) => {
                if rt.is_cell_disposed(c) {
                    None
                } else {
                    rt.subscribe_cell(c, obs);
                    Some(rt.read_cell(c))
                }
            },
            ModelRead::Field(f) => {
                if rt.is_store_disposed(f.store) {
                    None
                } else {
                    rt.subscribe_store(f.store, obs);
                    Some(rt.read_field(f))
                }
            },
        }
    }
}

impl ModelWrite {
    pub open spec fn valid_for<T>(self, rt: Runtime<T>) -> bool {
        match self {
            ModelWrite::Signal(c) => rt.valid_cell(c),
            ModelWrite::Field(f) => rt.valid_field(f),
        }
    }

    pub open spec fn disposed<T>(self, rt: Runtime<T>) -> bool {
        match self {
            ModelWrite::Signal(c) => rt.cell_disposed(c),
            ModelWrite::Field(f) => rt.store_disposed(f.store),
        }
    }
}

/// After a notifying write of `v` to cell `c`: the cell holds `v`, its
/// version is bumped, every subscriber is re-run exactly once, and
/// nothing else of the runtime changed.
pub open spec fn cell_set_post<T>(pre: Runtime<T>, post: Runtime<T>, c: CellId, v: T) -> bool {
    &&& post.cell_value(c) == v
    &&& post.cell_version(c) == next_version(pre.cell_version(c))
    &&& post.cell_disposed(c) == pre.cell_disposed(c)
    &&& post.cell_subs(c) == pre.cell_subs(c)
    &&& Runtime::cells_unchanged_except(pre, post, c)
    &&& post.stores@ == pre.stores@
    &&& post.runs.len() == pre.runs.len()
    &&& forall|o: usize|
        o < pre.runs.len() ==> #[trigger] post.runs[o as int] == (if has_sub(pre.cell_subs(c), o) {
            next_version(pre.runs[o as int])
        } else {
            pre.runs[o as int]
        })
}

/// After a notifying write of `v` to cell `c` followed by the sink push
/// into cell `s`: both cells hold `v` with bumped versions, and each
/// observer is re-run once per subscription among the two cells.
pub open spec fn cell_set_sink_post<T>(
    pre: Runtime<T>,
    post: Runtime<T>,
    c: CellId,
    s: CellId,
    v: T,
) -> bool {
    &&& post.cell_value(c) == v
    &&& post.cell_version(c) == next_version(pre.cell_version(c))
    &&& post.cell_disposed(c) == pre.cell_disposed(c)
    &&& post.cell_subs(c) == pre.cell_subs(c)
    &&& post.cell_value(s) == v
    &&& post.cell_version(s) == next_version(pre.cell_version(s))
    &&& post.cell_disposed(s) == pre.cell_disposed(s)
    &&& post.cell_subs(s) == pre.cell_subs(s)
    &&& post.cells.len() == pre.cells.len()
    &&& forall|i: int|
        0 <= i < pre.cells.len() && i != c.0 && i != s.0 ==> post.cells[i] == pre.cells[i]
    &&& post.stores@ == pre.stores@
    &&& post.runs.len() == pre.runs.len()
    &&& forall|o: usize|
        o < pre.runs.len() ==> #[trigger] post.runs[o as int] == (if has_sub(pre.cell_subs(c), o)
            && has_sub(pre.cell_subs(s), o) {
            next_version(next_version(pre.runs[o as int]))
        } else if has_sub(pre.cell_subs(c), o) || has_sub(pre.cell_subs(s), o) {
            next_version(pre.runs[o as int])
        } else {
            pre.runs[o as int]
        })
}

/// After a notifying write of `v` to the slot of field `f`: the slot
/// holds `v`, the store's version is bumped, every subscriber of the
/// store is re-run exactly once, and nothing else of the runtime changed.
pub open spec fn field_set_post<T>(pre: Runtime<T>, post: Runtime<T>, f: FieldRef, v: T) -> bool {
    &&& post.store_values(f.store) == pre.store_values(f.store).update(f.slot as int, v)
    &&& post.field_value(f) == v
    &&& post.store_version(f.store) == next_version(pre.store_version(f.store))
    &&& post.store_disposed(f.store) == pre.store_disposed(f.store)
    &&& post.store_subs(f.store) == pre.store_subs(f.store)
    &&& Runtime::stores_unchanged_except(pre, post, f.store)
    &&& post.cells@ == pre.cells@
    &&& post.runs.len() == pre.runs.len()
    &&& forall|o: usize|
        o < pre.runs.len() ==> #[trigger] post.runs[o as int] == (if has_sub(
            pre.store_subs(f.store),
            o,
        ) {
            next_version(pre.runs[o as int])
        } else {
            pre.runs[o as int]
        })
}

/// A unified two-way-bindable value handle.  Duplicating the handle
/// duplicates the descriptor only; all duplicates observe and mutate the
/// same storage of the runtime they were built over.
#[derive(Clone, Copy)]
pub struct Model {
    pub read: ModelRead,
    pub write: ModelWrite,
    pub on_write: Option<CellId>,
}

impl Model {
    /// Read and write go through the same underlying storage location.
    pub open spec fn same_storage(self) -> bool {
        match (self.read, self.write) {
            (ModelRead::Signal(cr), ModelWrite::Signal(cw)) => cr == cw,
            (ModelRead::Field(fr), ModelWrite::Field(fw)) => fr == fw,
            _ => false,
        }
    }

    /// A handle is valid for a runtime when its storage exists there,
    /// read and write share that storage, and the sink, if any, is a
    /// distinct cell of the same runtime.
    pub open spec fn valid_for<T>(self, rt: Runtime<T>) -> bool {
        &&& self.same_storage()
        &&& self.read.valid_for(rt)
        &&& self.write.valid_for(rt)
        &&& match self.on_write {
            Some(s) => rt.valid_cell(s) && match self.write {
                ModelWrite::Signal(c) => s != c,
                ModelWrite::Field(_) => false,
            },
            None => true,
        }
    }

    /// The value the handle currently observes.
    pub open spec fn value<T>(self, rt: Runtime<T>) -> T {
        self.read.value(rt)
    }

    /// A handle is disposed exactly when its write storage is disposed.
    pub open spec fn disposed<T>(self, rt: Runtime<T>) -> bool {
        self.write.disposed(rt)
    }

    /// What a successful `set` of `v` (and what `update_in_place` with a
    /// changed result `v`) does to the runtime: the shared storage holds
    /// `v`, its subscribers are re-run exactly once, the sink, when
    /// attached and live, is pushed `v` exactly once, and nothing else
    /// changed.
    pub open spec fn set_post<T>(self, pre: Runtime<T>, post: Runtime<T>, v: T) -> bool {
        match self.write {
            ModelWrite::Field(f) => field_set_post(pre, post, f, v),
            ModelWrite::Signal(c) => match self.on_write {
                None => cell_set_post(pre, post, c, v),
                Some(s) => if pre.cell_disposed(s) {
                    cell_set_post(pre, post, c, v)
                } else {
                    cell_set_sink_post(pre, post, c, s, v)
                },
            },
        }
    }

    /// Writes `v` to the live shared storage and pushes it into the live
    /// sink, if one is attached.
    fn apply_write<T: Copy>(&self, rt: &mut Runtime<T>, v: T)
        requires
            old(rt).wf(),
            self.valid_for(*old(rt)),
            !self.disposed(*old(rt)),
        ensures
            final(rt).wf(),
            self.valid_for(*final(rt)),
            self.set_post(*old(rt), *final(rt), v),
    {
        match self.write {
            ModelWrite::Signal(c) => {
                rt.write_cell(c, v);
                match self.on_write {
                    None => {},
                    Some(s) => {
                        let ghost mid: Runtime<T> = *rt;
                        if !rt.is_cell_disposed(s) {
                            rt.write_cell(s, v);
                            proof {
                                assert(mid.cell_subs(s) == old(rt).cell_subs(s));
                                assert forall|o: usize| o < old(rt).runs.len() implies #[trigger] rt.runs[o as int]
                                    == (if has_sub(old(rt).cell_subs(c), o) && has_sub(
                                    old(rt).cell_subs(s),
                                    o,
                                ) {
                                    next_version(next_version(old(rt).runs[o as int]))
                                } else if has_sub(old(rt).cell_subs(c), o) || has_sub(
                                    old(rt).cell_subs(s),
                                    o,
                                ) {
                                    next_version(old(rt).runs[o as int])
                                } else {
                                    old(rt).runs[o as int]
                                }) by {
                                    assert(mid.runs[o as int] == (if has_sub(
                                        old(rt).cell_subs(c),
                                        o,
                                    ) {
                                        next_version(old(rt).runs[o as int])
                                    } else {
                                        old(rt).runs[o as int]
                                    }));
                                }
                            }
                        }
                    },
                }
            },
            ModelWrite::Field(f) => {
                rt.write_field(f, v);
            },
        }
    }

    /// Unconditionally replaces the shared value and notifies its
    /// dependents, pushing the new value into the sink when one is
    /// attached; refused (with the runtime untouched) once the handle is
    /// disposed.
    pub fn set<T: Copy>(&self, rt: &mut Runtime<T>, v: T) -> (applied: bool)
        requires
            old(rt).wf(),
            self.valid_for(*old(rt)),
        ensures
            final(rt).wf(),
            self.valid_for(*final(rt)),
            applied == !self.disposed(*old(rt)),
            applied ==> self.set_post(*old(rt), *final(rt), v),
            !applied ==> *final(rt) == *old(rt),
    {
        if self.is_disposed(rt) {
            false
        } else {
            self.apply_write(rt, v);
            true
        }
    }

    /// Reads without establishing a dependency; reports unavailable once
    /// the handle is disposed.
    pub fn get_untracked<T: Copy>(&self, rt: &Runtime<T>) -> (r: Option<T>)
        requires
            self.valid_for(*rt),
        ensures
            r == (if self.disposed(*rt) {
                None::<T>
            } else {
                Some(self.value(*rt))
            }),
    {
        self.read.get_untracked(rt)
    }

    /// Reads and registers `obs` as a dependent, so that later writes
    /// through any duplicate of the handle re-run it; reports unavailable
    /// once the handle is disposed.
    pub fn get<T: Copy>(&self, rt: &mut Runtime<T>, obs: ObserverId) -> (r: Option<T>)
        requires
            old(rt).wf(),
            self.valid_for(*old(rt)),
            old(rt).valid_observer(obs),
        ensures
            final(rt).wf(),
            self.valid_for(*final(rt)),
            r == (if self.disposed(*old(rt)) {
                None::<T>
            } else {
                Some(self.value(*old(rt)))
            }),
            self.disposed(*old(rt)) ==> *final(rt) == *old(rt),
            !self.disposed(*old(rt)) ==> self.read.track_post(*old(rt), *final(rt), obs),
    {
        self.read.get(rt, obs)
    }

    /// Whether the owning scope of the handle's storage has ended.
    pub fn is_disposed<T: Copy>(&self, rt: &Runtime<T>) -> (r: bool)
        requires
            self.valid_for(*rt),
        ensures
            r == self.disposed(*rt),
    {
        match self.write {
            ModelWrite::Signal(c) => rt.is_cell_disposed(c),
            ModelWrite::Field(f) => rt.is_store_disposed(f.store),
        }
    }

    /// A read-only derived view of the handle, usable wherever a plain
    /// reactive read is accepted.
    pub fn signal(&self) -> (s: ModelRead)
        ensures
            s == self.read,
    {
        self.read
    }

    /// Applies `mutator` to the current value.  The mutator returns
    /// whether it changed the value, the value to keep, and an auxiliary
    /// result.  Only a changed value is written back and notified (and
    /// pushed into the sink); an unchanged one leaves the runtime, its
    /// observers and the sink exactly as they were.  Reports unavailable
    /// (with the runtime untouched and the mutator not run) once the
    /// handle is disposed.
    pub fn update_in_place<T: Copy, U, F: FnOnce(T) -> (bool, T, U)>(
        &self,
        rt: &mut Runtime<T>,
        mutator: F,
    ) -> (r: Option<U>)
        requires
            old(rt).wf(),
            self.valid_for(*old(rt)),
            call_requires(mutator, (self.value(*old(rt)),)),
        ensures
            final(rt).wf(),
            self.valid_for(*final(rt)),
            (r is None) == self.disposed(*old(rt)),
            r is None ==> *final(rt) == *old(rt),
            r is Some ==> exists|res: (bool, T, U)|
                {
                    &&& #[trigger] call_ensures(mutator, (self.value(*old(rt)),), res)
                    &&& r == Some(res.2)
                    &&& res.0 ==> self.set_post(*old(rt), *final(rt), res.1)
                    &&& !res.0 ==> *final(rt) == *old(rt)
                },
    {
        if self.is_disposed(rt) {
            None
        } else {
            let cur = match self.read {
                ModelRead::Signal(c) => rt.read_cell(c),
                ModelRead::Field(f) => rt.read_field(f),
            };
            let (changed, next, aux) = mutator(cur);
            if changed {
                self.apply_write(rt, next);
            }
            let ret = Some(aux);
            proof {
                let w: (bool, T, U) = (changed, next, aux);
                assert(call_ensures(mutator, (self.value(*old(rt)),), w));
                assert(w.0 ==> self.set_post(*old(rt), *rt, w.1));
                assert(!w.0 ==> *rt == *old(rt));
                assert(exists|res: (bool, T, U)|
                    {
                        &&& #[trigger] call_ensures(mutator, (self.value(*old(rt)),), res)
                        &&& ret == Some(res.2)
                        &&& res.0 ==> self.set_post(*old(rt), *rt, res.1)
                        &&& !res.0 ==> *rt == *old(rt)
                    });
            }
            ret
        }
    }

    /// Builds a handle over a fresh private cell seeded with `value`:
    /// the shape for a caller that hands the widget a plain value.
    pub fn from_value<T: Copy>(rt: &mut Runtime<T>, value: T) -> (m: Model)
        requires
            old(rt).wf(),
        ensures
            final(rt).wf(),
            m.valid_for(*final(rt)),
            !m.disposed(*final(rt)),
            m.value(*final(rt)) == value,
            m.on_write == None::<CellId>,
            m.read == ModelRead::Signal(CellId(old(rt).cells.len() as usize)),
            m.write == ModelWrite::Signal(CellId(old(rt).cells.len() as usize)),
            final(rt).cells.len() == old(rt).cells.len() + 1,
            forall|i: int|
                0 <= i < old(rt).cells.len() ==> final(rt).cells[i] == old(rt).cells[i],
            final(rt).stores@ == old(rt).stores@,
            final(rt).runs@ == old(rt).runs@,
    {
        let c = rt.new_cell(value);
        Model { read: ModelRead::Signal(c), write: ModelWrite::Signal(c), on_write: None }
    }

    /// Builds a handle over a fresh private cell seeded with the type's
    /// default value.
    pub fn from_default<T: Copy + Default>(rt: &mut Runtime<T>) -> (m: Model)
        requires
            old(rt).wf(),
        ensures
            final(rt).wf(),
            m.valid_for(*final(rt)),
            !m.disposed(*final(rt)),
            call_ensures(T::default, (), m.value(*final(rt))),
            m.on_write == None::<CellId>,
            m.read == ModelRead::Signal(CellId(old(rt).cells.len() as usize)),
            m.write == ModelWrite::Signal(CellId(old(rt).cells.len() as usize)),
            final(rt).cells.len() == old(rt).cells.len() + 1,
            forall|i: int|
                0 <= i < old(rt).cells.len() ==> final(rt).cells[i] == old(rt).cells[i],
            final(rt).stores@ == old(rt).stores@,
            final(rt).runs@ == old(rt).runs@,
    {
        let seed = T::default();
        Model::from_value(rt, seed)
    }

    /// Builds a handle over a pre-existing shared cell: caller and widget
    /// co-own the state, and every duplicate observes the same storage.
    pub fn from_cell<T: Copy>(rt: &Runtime<T>, c: CellId) -> (m: Model)
        requires
            rt.valid_cell(c),
        ensures
            m.valid_for(*rt),
            m.value(*rt) == rt.cell_value(c),
            m.disposed(*rt) == rt.cell_disposed(c),
            m.on_write == None::<CellId>,
            m.read == ModelRead::Signal(c),
            m.write == ModelWrite::Signal(c),
    {
        Model { read: ModelRead::Signal(c), write: ModelWrite::Signal(c), on_write: None }
    }

    /// Builds a handle over a store field: reads derive the slot's value
    /// from the parent store, writes go back into the same slot, and the
    /// handle lives exactly as long as the parent store.
    pub fn from_field<T: Copy>(rt: &Runtime<T>, f: FieldRef) -> (m: Model)
        requires
            rt.valid_field(f),
        ensures
            m.valid_for(*rt),
            m.value(*rt) == rt.field_value(f),
            m.disposed(*rt) == rt.store_disposed(f.store),
            m.on_write == None::<CellId>,
            m.read == ModelRead::Field(f),
            m.write == ModelWrite::Field(f),
    {
        Model { read: ModelRead::Field(f), write: ModelWrite::Field(f), on_write: None }
    }

    /// Builds a handle for the value/callback shape: a fresh private cell
    /// seeded with `initial` — or with the type's default value when
    /// `initial` is absent — and the given cell attached as the write-only
    /// notification sink, pushed the new value after every successful
    /// mutation.
    pub fn from_value_with_callback<T: Copy + Default>(
        rt: &mut Runtime<T>,
        initial: Option<T>,
        callback: CellId,
    ) -> (m: Model)
        requires
            old(rt).wf(),
            old(rt).valid_cell(callback),
        ensures
            final(rt).wf(),
            m.valid_for(*final(rt)),
            !m.disposed(*final(rt)),
            m.on_write == Some(callback),
            m.read == ModelRead::Signal(CellId(old(rt).cells.len() as usize)),
            m.write == ModelWrite::Signal(CellId(old(rt).cells.len() as usize)),
            match initial {
                Some(v) => m.value(*final(rt)) == v,
                None => call_ensures(T::default, (), m.value(*final(rt))),
            },
            final(rt).cells.len() == old(rt).cells.len() + 1,
            forall|i: int|
                0 <= i < old(rt).cells.len() ==> final(rt).cells[i] == old(rt).cells[i],
            final(rt).stores@ == old(rt).stores@,
            final(rt).runs@ == old(rt).runs@,
    {
        let seed = match initial {
            Some(v) => v,
            None => T::default(),
        };
        let c = rt.new_cell(seed);
        Model { read: ModelRead::Signal(c), write: ModelWrite::Signal(c), on_write: Some(callback) }
    }
}

} // verus!
