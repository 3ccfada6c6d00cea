//! The storage interface and the in-memory store behind it.
//!
//! A store is shared: every method takes `&self`, and other callers may change the
//! records between two calls. So the contracts here say which results a call can
//! have, in terms of the sequential operations of [`crate::table`]: the result is
//! the one that the operation gives on some valid set of records.

use vstd::prelude::*;
use vstd::rwlock::{RwLock, RwLockPredicate};
use std::sync::Arc;
use crate::clock::now;
use crate::ident::{parse_id, uuid_parse_str};
use crate::models::{Safe, SafeError, SafeView};
use crate::table::{
    create_result, delete_result, edit_result, get_result, lists_all, result_view,
    valid_records, SafeTable,
};

verus! {

/// `result` is what creating `safe` gives on some valid set of records.
pub open spec fn may_create(safe: SafeView, result: Result<SafeView, SafeError>) -> bool {
    exists|records: Map<u128, SafeView>|
        valid_records(records) && #[trigger] create_result(records, safe) == result
}

/// `result` is what reading the record named by `text` gives on some valid set of
/// records: `InvalidData` for a text that is no identifier.
pub open spec fn may_get(text: Seq<char>, result: Result<SafeView, SafeError>) -> bool {
    match uuid_parse_str(text) {
        None => result == Err::<SafeView, SafeError>(SafeError::InvalidData),
        Some(id) => exists|records: Map<u128, SafeView>|
            valid_records(records) && #[trigger] get_result(records, id) == result,
    }
}

/// `result` is what editing the record named by `text` with `patch` gives on some
/// valid set of records at some time: `InvalidData` for a text that is no identifier.
pub open spec fn may_edit(
    text: Seq<char>,
    patch: SafeView,
    result: Result<SafeView, SafeError>,
) -> bool {
    match uuid_parse_str(text) {
        None => result == Err::<SafeView, SafeError>(SafeError::InvalidData),
        Some(id) => exists|records: Map<u128, SafeView>, now: u128|
            valid_records(records) && #[trigger] edit_result(records, id, patch, now) == result,
    }
}

/// `result` is what deleting the record named by `text` gives on some valid set of
/// records: `InvalidData` for a text that is no identifier.
pub open spec fn may_delete(text: Seq<char>, result: Result<(), SafeError>) -> bool {
    match uuid_parse_str(text) {
        None => result == Err::<(), SafeError>(SafeError::InvalidData),
        Some(id) => exists|records: Map<u128, SafeView>|
            valid_records(records) && #[trigger] delete_result(records, id) == result,
    }
}

/// `listed` holds, each once, the records of some valid set.
pub open spec fn may_list(listed: Seq<Safe>) -> bool {
    exists|records: Map<u128, SafeView>|
        valid_records(records) && #[trigger] lists_all(listed, records)
}

/// What a caller learns from the result of a creation: the record comes back as it
/// was given, and only a valid one is accepted; every refusal is `InvalidData`.
pub proof fn law_create_outcome(safe: SafeView, result: Result<SafeView, SafeError>)
    requires
        may_create(safe, result),
    ensures
        result matches Ok(stored) ==> stored == safe && safe.is_valid(),
        result matches Err(error) ==> error == SafeError::InvalidData,
        !safe.is_valid() ==> result is Err,
{
}

/// What a caller learns from the result of a read: a text that is no identifier is
/// answered `InvalidData`, and nothing else is; `NotFound` is the only other failure;
/// a record that comes back is valid and carries the id that the text spells.
pub proof fn law_get_outcome(text: Seq<char>, result: Result<SafeView, SafeError>)
    requires
        may_get(text, result),
    ensures
        uuid_parse_str(text) is None <==> result == Err::<SafeView, SafeError>(
            SafeError::InvalidData,
        ),
        result matches Err(error) ==> error == SafeError::InvalidData || error
            == SafeError::NotFound,
        result matches Ok(found) ==> uuid_parse_str(text) == Some(found.id) && found.is_valid(),
{
}

/// What a caller learns from the result of an edit: a text that is no identifier is
/// answered `InvalidData`; so is a patch with an empty blob, if the record exists;
/// `NotFound` is the only other failure; a record that comes back is valid, carries the
/// id that the text spells and the patch's blob and version.
pub proof fn law_edit_outcome(
    text: Seq<char>,
    patch: SafeView,
    result: Result<SafeView, SafeError>,
)
    requires
        may_edit(text, patch, result),
        patch.encrypted_blob.len() <= usize::MAX,
    ensures
        uuid_parse_str(text) is None ==> result == Err::<SafeView, SafeError>(
            SafeError::InvalidData,
        ),
        result matches Err(error) ==> error == SafeError::InvalidData || error
            == SafeError::NotFound,
        result matches Err(SafeError::InvalidData) ==> uuid_parse_str(text) is None
            || patch.encrypted_blob.len() == 0,
        result matches Ok(edited) ==> {
            &&& uuid_parse_str(text) == Some(edited.id)
            &&& edited.is_valid()
            &&& edited.encrypted_blob == patch.encrypted_blob
            &&& edited.metadata.version == patch.metadata.version
        },
{
}

/// What a caller learns from the result of a deletion: a text that is no identifier is
/// answered `InvalidData`, and nothing else is; `NotFound` is the only other failure.
pub proof fn law_delete_outcome(text: Seq<char>, result: Result<(), SafeError>)
    requires
        may_delete(text, result),
    ensures
        uuid_parse_str(text) is None <==> result == Err::<(), SafeError>(SafeError::InvalidData),
        result matches Err(error) ==> error == SafeError::InvalidData || error
            == SafeError::NotFound,
{
}

/// A backend that stores safes. Identifiers arrive as text and are validated by the
/// backend. A backend that cannot complete an operation answers `InternalError`;
/// otherwise the answer is that of the sequential operation on the records it held.
pub trait SafeStorage: Send + Sync {
    /// Persists a new record; it is not an upsert.
    fn create_safe(&self, safe: Safe) -> (result: Result<Safe, SafeError>)
        ensures
            result matches Err(SafeError::InternalError) || may_create(safe@, result_view(result)),
    ;

    /// Replaces blob and version of the record under `id` by those of `safe`.
    fn edit_safe(&self, id: &str, safe: Safe) -> (result: Result<Safe, SafeError>)
        ensures
            result matches Err(SafeError::InternalError) || may_edit(
                id@,
                safe@,
                result_view(result),
            ),
    ;

    /// The record under `id`.
    fn get_safe(&self, id: &str) -> (result: Result<Safe, SafeError>)
        ensures
            result matches Err(SafeError::InternalError) || may_get(id@, result_view(result)),
    ;

    /// Removes the record under `id`, for good.
    fn delete_safe(&self, id: &str) -> (result: Result<(), SafeError>)
        ensures
            result matches Err(SafeError::InternalError) || may_delete(id@, result),
    ;

    /// Every record, in no particular order; an empty store gives an empty list.
    fn list_safes(&self) -> (result: Result<Vec<Safe>, SafeError>)
        ensures
            match result {
                Ok(listed) => may_list(listed@),
                Err(error) => error == SafeError::InternalError,
            },
    ;
}

/// What the lock of an [`InMemoryStorage`] guards: a table that meets its invariant.
pub struct ValidTable;

impl RwLockPredicate<SafeTable> for ValidTable {
    open spec fn inv(self, table: SafeTable) -> bool {
        table.wf()
    }
}

/// A store that keeps its records in memory, in one table behind a readers-writer
/// lock. Clones share the table. The lock is held for exactly the one table operation
/// of each call and cannot be poisoned, so no call answers `InternalError`.
pub struct InMemoryStorage {
    safes: Arc<RwLock<SafeTable, ValidTable>>,
}

impl Clone for InMemoryStorage {
    fn clone(&self) -> Self {
        InMemoryStorage { safes: self.safes.clone() }
    }
}

impl InMemoryStorage {
    /// A store with no records.
    pub fn new() -> Self {
        InMemoryStorage { safes: Arc::new(RwLock::new(SafeTable::new(), Ghost(ValidTable))) }
    }

    /// The number of records at the moment of the call.
    pub fn count(&self) -> usize {
        let guard = self.safes.acquire_read();
        let n = guard.borrow().count();
        guard.release_read();
        n
    }

    /// Removes every record.
    pub fn clear(&self) {
        let (mut table, guard) = self.safes.acquire_write();
        table.clear();
        guard.release_write(table);
    }
}

impl SafeStorage for InMemoryStorage {
    fn create_safe(&self, safe: Safe) -> (result: Result<Safe, SafeError>)
        ensures
            may_create(safe@, result_view(result)),
    {
        let (mut table, guard) = self.safes.acquire_write();
        let ghost before = table@;
        let result = table.create(safe);
        guard.release_write(table);
        assert(create_result(before, safe@) == result_view(result));
        result
    }

    fn edit_safe(&self, id: &str, safe: Safe) -> (result: Result<Safe, SafeError>)
        ensures
            may_edit(id@, safe@, result_view(result)),
    {
        let key = match parse_id(id) {
            Ok(key) => key,
            Err(error) => return Err(error),
        };
        let (mut table, guard) = self.safes.acquire_write();
        let ghost before = table@;
        let time = now();
        let result = table.edit(key, safe, time);
        guard.release_write(table);
        assert(edit_result(before, key, safe@, time) == result_view(result));
        result
    }

    fn get_safe(&self, id: &str) -> (result: Result<Safe, SafeError>)
        ensures
            may_get(id@, result_view(result)),
    {
        let key = match parse_id(id) {
            Ok(key) => key,
            Err(error) => return Err(error),
        };
        let guard = self.safes.acquire_read();
        let result = guard.borrow().get(key);
        assert(get_result(guard@@, key) == result_view(result));
        guard.release_read();
        result
    }

    fn delete_safe(&self, id: &str) -> (result: Result<(), SafeError>)
        ensures
            may_delete(id@, result),
    {
        let key = match parse_id(id) {
            Ok(key) => key,
            Err(error) => return Err(error),
        };
        let (mut table, guard) = self.safes.acquire_write();
        let ghost before = table@;
        let result = table.delete(key);
        guard.release_write(table);
        assert(delete_result(before, key) == result);
        result
    }

    fn list_safes(&self) -> (result: Result<Vec<Safe>, SafeError>)
        ensures
            result matches Ok(listed) && may_list(listed@),
    {
        let guard = self.safes.acquire_read();
        let listed = guard.borrow().list();
        assert(lists_all(listed@, guard@@));
        guard.release_read();
        Ok(listed)
    }
}

/// Where the application gets its store from, so that it depends on the interface alone.
pub struct SafeStorageFactory;

impl SafeStorageFactory {
    /// A fresh, empty in-memory store behind the storage interface.
    pub fn create_in_memory_storage() -> Box<dyn SafeStorage> {
        Box::new(InMemoryStorage::new())
    }
}

} // verus!
