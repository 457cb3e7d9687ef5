//! The laws the handle obeys, proved once over the relations that the
//! executable operations ensure.

use crate::model::Model;
use crate::model::ModelWrite;
use crate::runtime::CellId;
use crate::runtime::ObserverId;
use crate::runtime::Runtime;
use crate::runtime::has_sub;
use crate::runtime::next_version;
use vstd::prelude::*;

verus! {

/// A notifying write always moves the version counter.
pub proof fn lemma_next_version_changes(v: u64)
    ensures
        next_version(v) != v,
{
}

/// A value written through a live handle is the value the handle then
/// observes: `set(v)` followed by an untracked read yields `v`.
pub proof fn lemma_set_then_read<T>(pre: Runtime<T>, post: Runtime<T>, m: Model, v: T)
    requires
        m.valid_for(pre),
        !m.disposed(pre),
        m.set_post(pre, post, v),
    ensures
        m.value(post) == v,
        !m.disposed(post),
        m.valid_for(post),
{
}

/// Duplicating a handle duplicates the descriptor, not the storage: a
/// write through one duplicate is observed by a read through any other
/// duplicate over the same storage.
pub proof fn lemma_duplicate_observes_set<T>(
    pre: Runtime<T>,
    post: Runtime<T>,
    writer: Model,
    reader: Model,
    v: T,
)
    requires
        writer.valid_for(pre),
        reader.valid_for(pre),
        reader.read == writer.read,
        !writer.disposed(pre),
        writer.set_post(pre, post, v),
    ensures
        reader.value(post) == v,
        !reader.disposed(post),
{
}

/// A successful write re-runs each tracked observer of the handle's
/// storage exactly once per call (an observer that does not also track
/// the sink is bumped once, and a bump never leaves a counter in place).
pub proof fn lemma_set_notifies_exactly_once<T>(
    pre: Runtime<T>,
    post: Runtime<T>,
    m: Model,
    v: T,
    o: ObserverId,
)
    requires
        m.valid_for(pre),
        !m.disposed(pre),
        m.set_post(pre, post, v),
        pre.valid_observer(o),
        match m.write {
            ModelWrite::Signal(c) => has_sub(pre.cell_subs(c), o.0),
            ModelWrite::Field(f) => has_sub(pre.store_subs(f.store), o.0),
        },
        match m.on_write {
            Some(s) => pre.cell_disposed(s) || !has_sub(pre.cell_subs(s), o.0),
            None => true,
        },
    ensures
        post.runs_of(o) == next_version(pre.runs_of(o)),
        post.runs_of(o) != pre.runs_of(o),
{
    lemma_next_version_changes(pre.runs_of(o));
}

/// An observer that tracks nothing the write touches is not re-run.
pub proof fn lemma_set_spares_other_observers<T>(
    pre: Runtime<T>,
    post: Runtime<T>,
    m: Model,
    v: T,
    o: ObserverId,
)
    requires
        m.valid_for(pre),
        !m.disposed(pre),
        m.set_post(pre, post, v),
        pre.valid_observer(o),
        match m.write {
            ModelWrite::Signal(c) => !has_sub(pre.cell_subs(c), o.0),
            ModelWrite::Field(f) => !has_sub(pre.store_subs(f.store), o.0),
        },
        match m.on_write {
            Some(s) => !has_sub(pre.cell_subs(s), o.0),
            None => true,
        },
    ensures
        post.runs_of(o) == pre.runs_of(o),
{
}

/// For the value/callback shape: every successful mutation pushes the
/// handle's new current value into the sink exactly once.
pub proof fn lemma_callback_invoked_exactly_once<T>(
    pre: Runtime<T>,
    post: Runtime<T>,
    m: Model,
    v: T,
    s: CellId,
)
    requires
        m.valid_for(pre),
        !m.disposed(pre),
        m.on_write == Some(s),
        !pre.cell_disposed(s),
        m.set_post(pre, post, v),
    ensures
        post.cell_value(s) == v,
        post.cell_version(s) == next_version(pre.cell_version(s)),
        post.cell_version(s) != pre.cell_version(s),
{
    lemma_next_version_changes(pre.cell_version(s));
}

/// Reads through a handle are unavailable exactly when the handle
/// reports itself disposed: read and write share one storage, so the
/// fail-soft read check and `is_disposed` always agree.
pub proof fn lemma_disposed_reads_fail_soft<T>(rt: Runtime<T>, m: Model)
    requires
        m.valid_for(rt),
    ensures
        m.read.disposed(rt) == m.disposed(rt),
{
}

} // verus!
