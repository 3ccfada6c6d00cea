//! The stored record, its metadata, and the error kinds of the store.

use vstd::prelude::*;
use crate::clock::{now, seconds_of, whole_seconds};
use crate::ident::{generate_id, is_random_uuid};

verus! {

/// Version given to every newly created record.
pub const VERSION_NUMBER: u32 = 1;

/// Size and version recorded with a stored blob.
#[derive(Clone, Copy, Debug, PartialEq, Eq, Structural)]
pub struct SafeMetadata {
    /// Length of the blob in bytes.
    pub size: usize,
    /// Version of the record; starts at [`VERSION_NUMBER`], afterwards whatever the caller sets.
    pub version: u32,
}

/// Why a storage operation failed.
#[derive(Clone, Copy, Debug, PartialEq, Eq, Structural)]
pub enum SafeError {
    /// No record exists under the identifier.
    NotFound,
    /// The identifier is malformed, already taken, or the record is not one that may be stored.
    InvalidData,
    /// The backend could not complete the operation.
    InternalError,
}

/// What a caller is told of a failure.
#[derive(Clone, Copy, Debug, PartialEq, Eq)]
pub struct ErrorBody {
    /// The error's message.
    pub error: &'static str,
    /// When the failure was reported, in whole seconds since the Unix epoch.
    pub timestamp: u64,
}

impl SafeError {
    /// The text that describes the error to a caller.
    pub open spec fn message_text(self) -> Seq<char> {
        match self {
            SafeError::NotFound => "Safe not found"@,
            SafeError::InvalidData => "Invalid request data"@,
            SafeError::InternalError => "Internal server error"@,
        }
    }

    /// The HTTP status that reports the error.
    pub open spec fn status(self) -> u16 {
        match self {
            SafeError::NotFound => 404,
            SafeError::InvalidData => 400,
            SafeError::InternalError => 500,
        }
    }

    /// The text that describes the error to a caller.
    pub fn message(&self) -> (text: &'static str)
        ensures
            text@ == self.message_text(),
    {
        match self {
            SafeError::NotFound => "Safe not found",
            SafeError::InvalidData => "Invalid request data",
            SafeError::InternalError => "Internal server error",
        }
    }

    /// The HTTP status that reports the error.
    pub fn status_code(&self) -> (code: u16)
        ensures
            code == self.status(),
    {
        match self {
            SafeError::NotFound => 404,
            SafeError::InvalidData => 400,
            SafeError::InternalError => 500,
        }
    }

    /// The answer that reports the error at time `now`: its status, and a body with
    /// its message and the time in whole seconds.
    pub fn response_at(self, now: u128) -> (response: (u16, ErrorBody))
        ensures
            response.0 == self.status(),
            response.1.error@ == self.message_text(),
            response.1.timestamp == whole_seconds(now),
    {
        (self.status_code(), ErrorBody { error: self.message(), timestamp: seconds_of(now) })
    }

    /// The answer that reports the error as of the current time.
    pub fn into_response(self) -> (response: (u16, ErrorBody))
        ensures
            response.0 == self.status(),
            response.1.error@ == self.message_text(),
    {
        self.response_at(now())
    }
}

/// Mathematical model of a [`Safe`]: the blob as a sequence, everything else as it is.
pub struct SafeView {
    pub id: u128,
    pub encrypted_blob: Seq<u8>,
    pub created_at: u128,
    pub updated_at: u128,
    pub metadata: SafeMetadata,
}

impl SafeView {
    /// The recorded size is the length of the blob.
    pub open spec fn size_matches(self) -> bool {
        self.metadata.size == self.encrypted_blob.len()
    }

    /// A record that a store may hold: the size is right and the blob is not empty.
    pub open spec fn is_valid(self) -> bool {
        self.size_matches() && self.encrypted_blob.len() > 0
    }

    /// The record was not updated before it was created.
    pub open spec fn chronological(self) -> bool {
        self.created_at <= self.updated_at
    }

    /// The record made from `blob` under `id` at time `now`.
    pub open spec fn created(id: u128, blob: Seq<u8>, now: u128) -> SafeView {
        SafeView {
            id,
            encrypted_blob: blob,
            created_at: now,
            updated_at: now,
            metadata: SafeMetadata { size: blob.len() as usize, version: VERSION_NUMBER },
        }
    }

    /// The blob after an update: the one given, or the old one where none is given.
    pub open spec fn replaced_blob(self, blob: Option<Seq<u8>>) -> Seq<u8> {
        match blob {
            Some(given) => given,
            None => self.encrypted_blob,
        }
    }

    /// The version after an update: the one given, or the old one where none is given.
    pub open spec fn replaced_version(self, metadata: Option<SafeMetadata>) -> u32 {
        match metadata {
            Some(given) => given.version,
            None => self.metadata.version,
        }
    }

    /// The record after an update at time `now`: blob and version are replaced where
    /// they are given, the size follows the blob, the update time becomes `now`, and
    /// identifier and creation time stay.
    pub open spec fn updated(
        self,
        blob: Option<Seq<u8>>,
        metadata: Option<SafeMetadata>,
        now: u128,
    ) -> SafeView {
        SafeView {
            id: self.id,
            encrypted_blob: self.replaced_blob(blob),
            created_at: self.created_at,
            updated_at: now,
            metadata: SafeMetadata {
                size: self.replaced_blob(blob).len() as usize,
                version: self.replaced_version(metadata),
            },
        }
    }
}

/// An opaque encrypted blob with its identifier, timestamps and metadata.
///
/// Timestamps count nanoseconds since the Unix epoch.
#[derive(Debug, PartialEq, Eq)]
pub struct Safe {
    pub id: u128,
    pub encrypted_blob: Vec<u8>,
    pub created_at: u128,
    pub updated_at: u128,
    pub metadata: SafeMetadata,
}

impl View for Safe {
    type V = SafeView;

    open spec fn view(&self) -> SafeView {
        SafeView {
            id: self.id,
            encrypted_blob: self.encrypted_blob@,
            created_at: self.created_at,
            updated_at: self.updated_at,
            metadata: self.metadata,
        }
    }
}

impl Clone for Safe {
    fn clone(&self) -> (copy: Self)
        ensures
            copy@ == self@,
    {
        let blob = self.encrypted_blob.clone();
        assert(blob@ =~= self.encrypted_blob@);
        Safe {
            id: self.id,
            encrypted_blob: blob,
            created_at: self.created_at,
            updated_at: self.updated_at,
            metadata: self.metadata,
        }
    }
}

/// What a caller sends to create a safe. The metadata is not trusted: size and version
/// of the new record are derived.
pub struct CreateSafeRequest {
    pub id: Option<u128>,
    pub encrypted_blob: Vec<u8>,
    pub metadata: SafeMetadata,
}

/// What a caller sends to edit a safe: the parts to replace. The record is named by
/// the request's path, not by `id`.
pub struct EditSafeRequest {
    pub id: u128,
    pub encrypted_blob: Option<Vec<u8>>,
    pub metadata: Option<SafeMetadata>,
}

/// The answer to a successful creation.
#[derive(Clone, Copy, Debug, PartialEq, Eq, Structural)]
pub struct CreateSafeResponse {
    pub id: u128,
    pub created_at: u128,
    pub metadata: SafeMetadata,
}

/// The answer to a successful edit.
#[derive(Clone, Copy, Debug, PartialEq, Eq, Structural)]
pub struct EditSafeResponse {
    pub id: u128,
    pub updated_at: u128,
    pub metadata: SafeMetadata,
}

/// The answer to a successful read: the whole record.
#[derive(Debug, PartialEq, Eq)]
pub struct GetSafeResponse {
    pub id: u128,
    pub encrypted_blob: Vec<u8>,
    pub created_at: u128,
    pub updated_at: u128,
    pub metadata: SafeMetadata,
}

impl View for GetSafeResponse {
    type V = SafeView;

    open spec fn view(&self) -> SafeView {
        SafeView {
            id: self.id,
            encrypted_blob: self.encrypted_blob@,
            created_at: self.created_at,
            updated_at: self.updated_at,
            metadata: self.metadata,
        }
    }
}

impl SafeView {
    /// The answer that reports this record as created.
    pub open spec fn created_response(self) -> CreateSafeResponse {
        CreateSafeResponse { id: self.id, created_at: self.created_at, metadata: self.metadata }
    }

    /// The answer that reports this record as edited.
    pub open spec fn edited_response(self) -> EditSafeResponse {
        EditSafeResponse { id: self.id, updated_at: self.updated_at, metadata: self.metadata }
    }
}

impl CreateSafeResponse {
    /// Reports `safe` as created.
    pub fn of(safe: &Safe) -> (response: CreateSafeResponse)
        ensures
            response == safe@.created_response(),
    {
        CreateSafeResponse { id: safe.id, created_at: safe.created_at, metadata: safe.metadata }
    }
}

impl EditSafeResponse {
    /// Reports `safe` as edited.
    pub fn of(safe: &Safe) -> (response: EditSafeResponse)
        ensures
            response == safe@.edited_response(),
    {
        EditSafeResponse { id: safe.id, updated_at: safe.updated_at, metadata: safe.metadata }
    }
}

impl GetSafeResponse {
    /// Hands out `safe` whole.
    pub fn of(safe: Safe) -> (response: GetSafeResponse)
        ensures
            response@ == safe@,
    {
        GetSafeResponse {
            id: safe.id,
            encrypted_blob: safe.encrypted_blob,
            created_at: safe.created_at,
            updated_at: safe.updated_at,
            metadata: safe.metadata,
        }
    }
}

/// The model of an optional blob.
pub open spec fn blob_view(blob: Option<Vec<u8>>) -> Option<Seq<u8>> {
    match blob {
        Some(b) => Some(b@),
        None => None,
    }
}

impl Safe {
    /// Builds a record for `encrypted_blob` as of the current time, under `id` or, where
    /// none is given, under a freshly drawn identifier, which is a random UUID.
    ///
    /// An empty blob is accepted here; whoever stores the record rejects it.
    pub fn new(id: Option<u128>, encrypted_blob: Vec<u8>) -> (safe: Safe)
        ensures
            id matches Some(given) ==> safe@.id == given,
            id is None ==> is_random_uuid(safe@.id),
            safe@ == SafeView::created(safe@.id, encrypted_blob@, safe@.created_at),
    {
        let id = match id {
            Some(given) => given,
            None => generate_id(),
        };
        Safe::new_at(id, encrypted_blob, now())
    }

    /// Builds the record for `encrypted_blob` under `id` as of time `now`.
    pub fn new_at(id: u128, encrypted_blob: Vec<u8>, now: u128) -> (safe: Safe)
        ensures
            safe@ == SafeView::created(id, encrypted_blob@, now),
    {
        let metadata = SafeMetadata { size: encrypted_blob.len(), version: VERSION_NUMBER };
        Safe { id, encrypted_blob, created_at: now, updated_at: now, metadata }
    }

    /// Applies an update as of the current time: replaces the blob and the version
    /// that are given, keeps those that are not, and sets `updated_at` to the clock's
    /// reading whether or not anything else changed.
    pub fn update(&mut self, encrypted_blob: Option<Vec<u8>>, metadata: Option<SafeMetadata>)
        ensures
            final(self)@ == old(self)@.updated(
                blob_view(encrypted_blob),
                metadata,
                final(self)@.updated_at,
            ),
    {
        self.update_at(encrypted_blob, metadata, now());
    }

    /// Applies an update as of time `now`; see [`SafeView::updated`].
    pub fn update_at(
        &mut self,
        encrypted_blob: Option<Vec<u8>>,
        metadata: Option<SafeMetadata>,
        now: u128,
    )
        ensures
            final(self)@ == old(self)@.updated(blob_view(encrypted_blob), metadata, now),
    {
        if let Some(blob) = encrypted_blob {
            self.encrypted_blob = blob;
        }
        if let Some(meta) = metadata {
            self.metadata = meta;
        }
        self.metadata.size = self.encrypted_blob.len();
        self.updated_at = now;
    }
}

} // verus!
