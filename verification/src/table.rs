//! The records of a store as one sequential map, with exact contracts.
//!
//! Every operation is stated twice: as a pair of spec functions on
//! `Map<u128, SafeView>` (what it returns, and the map it leaves), and as a
//! method of [`SafeTable`] whose contract is exactly that pair.

use vstd::prelude::*;
use std::collections::HashMap;
use vstd::std_specs::hash::spec_hash_map_iter;
use vstd::std_specs::iter::IteratorSpec;
use crate::models::{Safe, SafeError, SafeView};

verus! {

/// The invariant of a store: finitely many records, each valid and filed under its own id.
pub open spec fn valid_records(records: Map<u128, SafeView>) -> bool {
    &&& records.dom().finite()
    &&& forall|id: u128| #[trigger]
        records.contains_key(id) ==> records[id].id == id && records[id].is_valid()
}

/// The model of what an operation returns.
pub open spec fn result_view(result: Result<Safe, SafeError>) -> Result<SafeView, SafeError> {
    match result {
        Ok(safe) => Ok(safe@),
        Err(error) => Err(error),
    }
}

/// A record can be created when it is valid and its id is not taken.
pub open spec fn can_create(records: Map<u128, SafeView>, safe: SafeView) -> bool {
    safe.is_valid() && !records.contains_key(safe.id)
}

/// What `create` returns.
pub open spec fn create_result(records: Map<u128, SafeView>, safe: SafeView) -> Result<
    SafeView,
    SafeError,
> {
    if can_create(records, safe) {
        Ok(safe)
    } else {
        Err(SafeError::InvalidData)
    }
}

/// The records after `create`.
pub open spec fn after_create(records: Map<u128, SafeView>, safe: SafeView) -> Map<
    u128,
    SafeView,
> {
    if can_create(records, safe) {
        records.insert(safe.id, safe)
    } else {
        records
    }
}

/// What `get` returns.
pub open spec fn get_result(records: Map<u128, SafeView>, id: u128) -> Result<
    SafeView,
    SafeError,
> {
    if records.contains_key(id) {
        Ok(records[id])
    } else {
        Err(SafeError::NotFound)
    }
}

/// What `edit` returns: the stored record with the patch's blob and version, as of `now`.
pub open spec fn edit_result(
    records: Map<u128, SafeView>,
    id: u128,
    patch: SafeView,
    now: u128,
) -> Result<SafeView, SafeError> {
    if !records.contains_key(id) {
        Err(SafeError::NotFound)
    } else if patch.encrypted_blob.len() == 0 {
        Err(SafeError::InvalidData)
    } else {
        Ok(records[id].updated(Some(patch.encrypted_blob), Some(patch.metadata), now))
    }
}

/// The records after `edit`.
pub open spec fn after_edit(
    records: Map<u128, SafeView>,
    id: u128,
    patch: SafeView,
    now: u128,
) -> Map<u128, SafeView> {
    match edit_result(records, id, patch, now) {
        Ok(safe) => records.insert(id, safe),
        Err(_) => records,
    }
}

/// What `delete` returns.
pub open spec fn delete_result(records: Map<u128, SafeView>, id: u128) -> Result<(), SafeError> {
    if records.contains_key(id) {
        Ok(())
    } else {
        Err(SafeError::NotFound)
    }
}

/// The records after `delete`.
pub open spec fn after_delete(records: Map<u128, SafeView>, id: u128) -> Map<u128, SafeView> {
    records.remove(id)
}

/// `listed` holds each of `records` exactly once, in some order.
pub open spec fn lists_all(listed: Seq<Safe>, records: Map<u128, SafeView>) -> bool {
    &&& listed.len() == records.len()
    &&& forall|i: int|
        0 <= i < listed.len() ==> records.contains_key(#[trigger] listed[i]@.id)
            && records[listed[i]@.id] == listed[i]@
    &&& forall|i: int, j: int|
        0 <= i < j < listed.len() ==> #[trigger] listed[i]@.id != #[trigger] listed[j]@.id
}

/// The model of a map of records: the same keys, each record by its view.
pub open spec fn model_of(records: Map<u128, Safe>) -> Map<u128, SafeView> {
    Map::new(|id: u128| records.contains_key(id), |id: u128| records[id]@)
}

proof fn lemma_model_of_insert(records: Map<u128, Safe>, id: u128, safe: Safe)
    ensures
        model_of(records.insert(id, safe)) == model_of(records).insert(id, safe@),
{
    assert(model_of(records.insert(id, safe)) =~= model_of(records).insert(id, safe@));
}

proof fn lemma_model_of_remove(records: Map<u128, Safe>, id: u128)
    ensures
        model_of(records.remove(id)) == model_of(records).remove(id),
{
    assert(model_of(records.remove(id)) =~= model_of(records).remove(id));
}

proof fn lemma_model_of_dom(records: Map<u128, Safe>)
    ensures
        model_of(records).dom() == records.dom(),
{
    assert(model_of(records).dom() =~= records.dom());
}

/// The records of a store, by id.
pub struct SafeTable {
    records: HashMap<u128, Safe>,
}

impl View for SafeTable {
    type V = Map<u128, SafeView>;

    closed spec fn view(&self) -> Map<u128, SafeView> {
        model_of(self.records@)
    }
}

impl SafeTable {
    /// The table's invariant: [`valid_records`] holds of what it stores.
    pub open spec fn wf(&self) -> bool {
        valid_records(self@)
    }

    /// An empty table.
    pub fn new() -> (table: SafeTable)
        ensures
            table.wf(),
            table@ == Map::<u128, SafeView>::empty(),
    {
        let records: HashMap<u128, Safe> = HashMap::new();
        assert(model_of(records@) =~= Map::<u128, SafeView>::empty());
        SafeTable { records }
    }

    /// The number of records.
    pub fn count(&self) -> (n: usize)
        requires
            self.wf(),
        ensures
            n == self@.len(),
    {
        proof {
            lemma_model_of_dom(self.records@);
        }
        self.records.len()
    }

    /// Removes every record.
    pub fn clear(&mut self)
        requires
            old(self).wf(),
        ensures
            final(self).wf(),
            final(self)@ == Map::<u128, SafeView>::empty(),
    {
        self.records.clear();
        assert(model_of(self.records@) =~= Map::<u128, SafeView>::empty());
    }

    /// Files a new record under its id. A record that is not valid, or whose id is
    /// taken, is refused as `InvalidData` and the table stays as it was.
    pub fn create(&mut self, safe: Safe) -> (result: Result<Safe, SafeError>)
        requires
            old(self).wf(),
        ensures
            final(self).wf(),
            result_view(result) == create_result(old(self)@, safe@),
            final(self)@ == after_create(old(self)@, safe@),
    {
        let length = safe.encrypted_blob.len();
        if length == 0 || safe.metadata.size != length {
            return Err(SafeError::InvalidData);
        }
        if self.records.contains_key(&safe.id) {
            return Err(SafeError::InvalidData);
        }
        let stored = safe.clone();
        proof {
            lemma_model_of_insert(self.records@, safe.id, stored);
        }
        self.records.insert(safe.id, stored);
        Ok(safe)
    }

    /// The record under `id`, or `NotFound`.
    pub fn get(&self, id: u128) -> (result: Result<Safe, SafeError>)
        requires
            self.wf(),
        ensures
            result_view(result) == get_result(self@, id),
    {
        match self.records.get(&id) {
            Some(safe) => Ok(safe.clone()),
            None => Err(SafeError::NotFound),
        }
    }

    /// Replaces blob and version of the record under `id` by those of `patch`, as of
    /// time `now`. An unknown id is `NotFound`; a patch with an empty blob is
    /// `InvalidData`; either way the table stays as it was.
    pub fn edit(&mut self, id: u128, patch: Safe, now: u128) -> (result: Result<Safe, SafeError>)
        requires
            old(self).wf(),
        ensures
            final(self).wf(),
            result_view(result) == edit_result(old(self)@, id, patch@, now),
            final(self)@ == after_edit(old(self)@, id, patch@, now),
    {
        if !self.records.contains_key(&id) {
            return Err(SafeError::NotFound);
        }
        if patch.encrypted_blob.len() == 0 {
            return Err(SafeError::InvalidData);
        }
        let ghost before = self.records@;
        match self.records.remove(&id) {
            Some(mut record) => {
                record.update_at(Some(patch.encrypted_blob), Some(patch.metadata), now);
                let updated = record.clone();
                proof {
                    lemma_model_of_remove(before, id);
                    lemma_model_of_insert(before.remove(id), id, record);
                    assert(before.remove(id).insert(id, record) =~= before.insert(id, record));
                    lemma_model_of_insert(before, id, record);
                }
                self.records.insert(id, record);
                Ok(updated)
            },
            None => Err(SafeError::NotFound),
        }
    }

    /// A copy of every record, in no particular order.
    pub fn list(&self) -> (listed: Vec<Safe>)
        requires
            self.wf(),
        ensures
            lists_all(listed@, self@),
    {
        let mut listed: Vec<Safe> = Vec::new();
        let ghost entries = spec_hash_map_iter(&self.records).remaining();
        for entry in it: self.records.iter()
            invariant
                it.seq() == entries,
                entries.no_duplicates(),
                listed@.len() == it.index(),
                forall|i: int|
                    0 <= i < listed@.len() ==> listed@[i]@ == (*entries[i].1)@,
        {
            listed.push(entry.1.clone());
        }
        proof {
            lemma_model_of_dom(self.records@);
            assert(listed@.len() == entries.len());
            assert forall|i: int| 0 <= i < listed@.len() implies self@.contains_key(
                #[trigger] listed@[i]@.id,
            ) && self@[listed@[i]@.id] == listed@[i]@ by {
                let id = *entries[i].0;
                assert(self.records@.contains_key(id));
                assert(self@.contains_key(id));
            }
            assert forall|i: int, j: int| 0 <= i < j < listed@.len() implies #[trigger] listed@[i]@.id
                != #[trigger] listed@[j]@.id by {
                assert(self.records@.contains_key(*entries[i].0));
                assert(self.records@.contains_key(*entries[j].0));
                assert(self@.contains_key(*entries[i].0));
                assert(self@.contains_key(*entries[j].0));
                if listed@[i]@.id == listed@[j]@.id {
                    assert(entries[i] == entries[j]);
                }
            }
        }
        listed
    }

    /// Removes the record under `id`, or reports `NotFound`.
    pub fn delete(&mut self, id: u128) -> (result: Result<(), SafeError>)
        requires
            old(self).wf(),
        ensures
            final(self).wf(),
            result == delete_result(old(self)@, id),
            final(self)@ == after_delete(old(self)@, id),
    {
        proof {
            lemma_model_of_remove(self.records@, id);
        }
        match self.records.remove(&id) {
            Some(_) => Ok(()),
            None => {
                assert(self@ =~= old(self)@);
                Err(SafeError::NotFound)
            },
        }
    }
}

} // verus!
