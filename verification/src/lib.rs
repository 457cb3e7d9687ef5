//! A unified two-way-bindable value handle over a small single-threaded
//! reactive runtime.
//!
//! The runtime owns observable cells (single values) and stores (groups of
//! slots sharing one lifetime); observers subscribe to either and are
//! notified when a value is written.  A [`Model`] composes one read
//! projection and one write projection over the same storage, optionally
//! with a write-only notification sink, so that widget code can accept an
//! owned value, a shared cell, a store field, or a value/callback pair
//! through one get/set/update interface.

mod laws;
mod model;
mod runtime;

pub use laws::lemma_callback_invoked_exactly_once;
pub use laws::lemma_disposed_reads_fail_soft;
pub use laws::lemma_duplicate_observes_set;
pub use laws::lemma_next_version_changes;
pub use laws::lemma_set_notifies_exactly_once;
pub use laws::lemma_set_spares_other_observers;
pub use laws::lemma_set_then_read;
pub use model::Model;
pub use model::ModelRead;
pub use model::ModelWrite;
pub use runtime::CellId;
pub use runtime::FieldRef;
pub use runtime::ObserverId;
pub use runtime::Runtime;
pub use runtime::StoreId;
