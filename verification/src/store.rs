//! A model of the document store, as far as the service relies on it: one
//! collection of records, an insert, queries by filter, and an update of a
//! single record.
//!
//! The store itself is outside this crate. The model states what the service
//! expects of it, so that what an operation achieves can be stated and proved
//! for every store that behaves as the model says. In the model a filter asks
//! for the very value it names; a store that takes numbers of the same amount
//! but of different types for equal selects more than the model does where
//! records hold such values. The service itself writes an id as a 64-bit
//! integer only.

use crate::document::Fields;
use crate::query::document_selects;
use crate::query::record_after_update;
use crate::service::UpdateCounts;
use vstd::prelude::*;

verus! {

/// The records of the collection, in the store's own order.
pub type Store = Seq<Fields>;

/// The store after `record` was inserted.
pub open spec fn after_insert(store: Store, record: Fields) -> Store {
    store.push(record)
}

/// What a query for every record that `filter` selects returns: those
/// records, in the store's order.
pub open spec fn find_many(store: Store, filter: Fields) -> Seq<Fields> {
    store.filter(|record: Fields| document_selects(filter, record))
}

/// Whether `filter` selects some record of the store.
pub open spec fn selects_any(store: Store, filter: Fields) -> bool {
    exists|i: int| 0 <= i < store.len() && document_selects(filter, #[trigger] store[i])
}

/// Whether `found` can be what a query for one record that `filter` selects
/// returns: such a record of the store, or nothing where there is none.
pub open spec fn is_find_one(store: Store, filter: Fields, found: Option<Fields>) -> bool {
    match found {
        Some(record) => document_selects(filter, record) && store.contains(record),
        None => !selects_any(store, filter),
    }
}

/// Whether `after` and `counts` can be the outcome of running the update
/// command on one record that `filter` selects. Where the filter selects a
/// record, the command runs on one such record and no other record changes;
/// it counts as matched, and as modified where it changed. Where the filter
/// selects none, the store stays as it is and both counts are zero.
pub open spec fn is_update_one(
    before: Store,
    filter: Fields,
    command: Fields,
    after: Store,
    counts: UpdateCounts,
) -> bool {
    if selects_any(before, filter) {
        exists|i: int|
            {
                &&& 0 <= i < before.len()
                &&& document_selects(filter, #[trigger] before[i])
                &&& after == before.update(i, record_after_update(before[i], command))
                &&& counts.matched == 1
                &&& counts.modified == if after[i] == before[i] {
                    0u64
                } else {
                    1u64
                }
            }
    } else {
        after == before && counts.matched == 0 && counts.modified == 0
    }
}

/// Whether at most one record of the store is selected by `filter`.
pub open spec fn selects_at_most_one(store: Store, filter: Fields) -> bool {
    forall|i: int, j: int|
        0 <= i < store.len() && 0 <= j < store.len() && document_selects(filter, #[trigger] store[i])
            && document_selects(filter, #[trigger] store[j]) ==> i == j
}

} // verus!
