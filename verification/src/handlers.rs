//! What each request does with the store, and the answer it gives: the decisions of
//! the HTTP layer, apart from the transport.
//!
//! A failure of the store reaches the caller as the store reported it: `InvalidData`
//! for an identifier that is malformed or taken, `NotFound` for one that names no
//! record, `InternalError` only where the backend could not complete the operation.

use vstd::prelude::*;
use crate::ident::{generate_id, is_random_uuid, uuid_parse_str};
use crate::models::{
    blob_view, CreateSafeRequest, CreateSafeResponse, EditSafeRequest, EditSafeResponse,
    GetSafeResponse, Safe, SafeError, SafeMetadata, VERSION_NUMBER,
};
use crate::storage::{law_edit_outcome, may_list, SafeStorage};
use crate::table::result_view;

verus! {

/// Status of an answer that carries what was asked for.
pub const STATUS_OK: u16 = 200;

/// Status of the answer to a creation.
pub const STATUS_CREATED: u16 = 201;

/// Status of the answer to a deletion, which carries nothing.
pub const STATUS_NO_CONTENT: u16 = 204;

/// The answer to a creation, given what the store said: a failure of the store is
/// reported as it is.
pub fn created_response(stored: Result<Safe, SafeError>) -> (response: Result<
    (u16, CreateSafeResponse),
    SafeError,
>)
    ensures
        response == match stored {
            Ok(safe) => Ok::<(u16, CreateSafeResponse), SafeError>(
                (STATUS_CREATED, safe@.created_response()),
            ),
            Err(error) => Err(error),
        },
{
    match stored {
        Ok(safe) => Ok((STATUS_CREATED, CreateSafeResponse::of(&safe))),
        Err(error) => Err(error),
    }
}

/// The answer to a read, given what the store said: a failure of the store is
/// reported as it is.
pub fn found_response(stored: Result<Safe, SafeError>) -> (response: Result<
    (u16, GetSafeResponse),
    SafeError,
>)
    ensures
        match stored {
            Ok(safe) => response matches Ok((status, body)) && status == STATUS_OK && body@
                == safe@,
            Err(error) => response matches Err(reported) && reported == error,
        },
{
    match stored {
        Ok(safe) => Ok((STATUS_OK, GetSafeResponse::of(safe))),
        Err(error) => Err(error),
    }
}

/// The answer to an edit, given what the store said: a failure of the store is
/// reported as it is.
pub fn edited_response(stored: Result<Safe, SafeError>) -> (response: Result<
    (u16, EditSafeResponse),
    SafeError,
>)
    ensures
        response == match stored {
            Ok(safe) => Ok::<(u16, EditSafeResponse), SafeError>(
                (STATUS_OK, safe@.edited_response()),
            ),
            Err(error) => Err(error),
        },
{
    match stored {
        Ok(safe) => Ok((STATUS_OK, EditSafeResponse::of(&safe))),
        Err(error) => Err(error),
    }
}

/// The answer to a listing, given what the store said: the records as they are, be
/// they none; a failure of the store is reported as it is.
pub fn listed_response(stored: Result<Vec<Safe>, SafeError>) -> (response: Result<
    (u16, Vec<Safe>),
    SafeError,
>)
    ensures
        match stored {
            Ok(safes) => response matches Ok((status, body)) && status == STATUS_OK && body
                == safes,
            Err(error) => response matches Err(reported) && reported == error,
        },
{
    match stored {
        Ok(safes) => Ok((STATUS_OK, safes)),
        Err(error) => Err(error),
    }
}

/// The answer to a deletion, given what the store said: a failure of the store is
/// reported as it is.
pub fn deleted_response(stored: Result<(), SafeError>) -> (response: Result<u16, SafeError>)
    ensures
        response == match stored {
            Ok(_) => Ok::<u16, SafeError>(STATUS_NO_CONTENT),
            Err(error) => Err(error),
        },
{
    match stored {
        Ok(_) => Ok(STATUS_NO_CONTENT),
        Err(error) => Err(error),
    }
}

/// Creates a safe from a request. An empty blob is `InvalidData` and the store is not
/// asked. Otherwise the new record gets the requested id, or a freshly drawn random
/// UUID, and its size and version are derived; the store's refusal is passed on, which
/// for a taken id is `InvalidData`.
pub fn create_safe(storage: &dyn SafeStorage, payload: CreateSafeRequest) -> (response: Result<
    (u16, CreateSafeResponse),
    SafeError,
>)
    ensures
        payload.encrypted_blob@.len() == 0 ==> response == Err::<
            (u16, CreateSafeResponse),
            SafeError,
        >(SafeError::InvalidData),
        payload.encrypted_blob@.len() > 0 ==> match response {
            Ok((status, body)) => {
                &&& status == STATUS_CREATED
                &&& payload.id matches Some(id) ==> body.id == id
                &&& payload.id is None ==> is_random_uuid(body.id)
                &&& body.metadata == SafeMetadata {
                    size: payload.encrypted_blob@.len() as usize,
                    version: VERSION_NUMBER,
                }
            },
            Err(error) => error == SafeError::InvalidData || error == SafeError::InternalError,
        },
{
    if payload.encrypted_blob.len() == 0 {
        return Err(SafeError::InvalidData);
    }
    let safe_id = match payload.id {
        Some(id) => id,
        None => generate_id(),
    };
    let safe = Safe::new(Some(safe_id), payload.encrypted_blob);
    created_response(storage.create_safe(safe))
}

/// Reads the safe under `id`; the store's answer is passed on.
pub fn get_safe(storage: &dyn SafeStorage, id: &str) -> (response: Result<
    (u16, GetSafeResponse),
    SafeError,
>)
    ensures
        match response {
            Ok((status, body)) => {
                &&& status == STATUS_OK
                &&& uuid_parse_str(id@) == Some(body@.id)
                &&& body@.is_valid()
            },
            Err(error) => {
                &&& error == SafeError::InvalidData ==> uuid_parse_str(id@) is None
                &&& error == SafeError::NotFound ==> uuid_parse_str(id@) is Some
            },
        },
        uuid_parse_str(id@) is None ==> (response matches Err(error) && (error
            == SafeError::InvalidData || error == SafeError::InternalError)),
{
    found_response(storage.get_safe(id))
}

/// What the record under `id` becomes when `payload` is applied to `existing`: the
/// parts given replace the old ones, and a result with an empty blob is `InvalidData`.
pub fn patched(existing: Safe, payload: EditSafeRequest) -> (patch: Result<Safe, SafeError>)
    ensures
        match patch {
            Ok(safe) => {
                &&& safe@ == existing@.updated(
                    blob_view(payload.encrypted_blob),
                    payload.metadata,
                    safe@.updated_at,
                )
                &&& safe@.is_valid()
            },
            Err(error) => {
                &&& error == SafeError::InvalidData
                &&& existing@.replaced_blob(blob_view(payload.encrypted_blob)).len() == 0
            },
        },
{
    let mut updated = existing;
    updated.update(payload.encrypted_blob, payload.metadata);
    if updated.encrypted_blob.len() == 0 {
        return Err(SafeError::InvalidData);
    }
    Ok(updated)
}

/// Edits the safe under `id`: reads it, applies the parts that `payload` gives, and
/// stores the result. A result with an empty blob is `InvalidData`; a failure of the
/// store, on reading or on storing, is passed on: `InvalidData` for a malformed id,
/// `NotFound` for one that names no record.
pub fn edit_safe(storage: &dyn SafeStorage, id: &str, payload: EditSafeRequest) -> (response:
    Result<(u16, EditSafeResponse), SafeError>)
    ensures
        match response {
            Ok((status, body)) => {
                &&& status == STATUS_OK
                &&& uuid_parse_str(id@) == Some(body.id)
                &&& body.metadata.size > 0
                &&& payload.encrypted_blob matches Some(blob) ==> body.metadata.size
                    == blob@.len()
                &&& payload.metadata matches Some(metadata) ==> body.metadata.version
                    == metadata.version
            },
            Err(error) => {
                &&& error == SafeError::InvalidData ==> uuid_parse_str(id@) is None || (
                payload.encrypted_blob matches Some(blob) && blob@.len() == 0)
                &&& error == SafeError::NotFound ==> uuid_parse_str(id@) is Some
            },
        },
        uuid_parse_str(id@) is None ==> (response matches Err(error) && (error
            == SafeError::InvalidData || error == SafeError::InternalError)),
{
    let existing = match storage.get_safe(id) {
        Ok(safe) => safe,
        Err(error) => return Err(error),
    };
    let updated = match patched(existing, payload) {
        Ok(safe) => safe,
        Err(error) => return Err(error),
    };
    let stored = storage.edit_safe(id, updated);
    proof {
        if !(stored matches Err(SafeError::InternalError)) {
            law_edit_outcome(id@, updated@, result_view(stored));
        }
    }
    edited_response(stored)
}

/// Lists every safe; a failure of the store is passed on.
pub fn list_safes(storage: &dyn SafeStorage) -> (response: Result<(u16, Vec<Safe>), SafeError>)
    ensures
        match response {
            Ok((status, body)) => status == STATUS_OK && may_list(body@),
            Err(error) => error == SafeError::InternalError,
        },
{
    listed_response(storage.list_safes())
}

/// Deletes the safe under `id`; a failure of the store is passed on: `InvalidData`
/// for a malformed id, `NotFound` for one that names no record.
pub fn delete_safe(storage: &dyn SafeStorage, id: &str) -> (response: Result<u16, SafeError>)
    ensures
        match response {
            Ok(status) => status == STATUS_NO_CONTENT && uuid_parse_str(id@) is Some,
            Err(error) => {
                &&& error == SafeError::InvalidData ==> uuid_parse_str(id@) is None
                &&& error == SafeError::NotFound ==> uuid_parse_str(id@) is Some
            },
        },
        uuid_parse_str(id@) is None ==> (response matches Err(error) && (error
            == SafeError::InvalidData || error == SafeError::InternalError)),
{
    deleted_response(storage.delete_safe(id))
}

} // verus!
