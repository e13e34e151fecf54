//! Public application commands and results of the Resource services.

use crate::domain::checksum::Checksum;
use crate::domain::ids::DirectoryId;
use crate::domain::resource::ResourceKind;
use crate::error::CoreError;
use crate::resource::query::opt_str;
use vstd::prelude::*;

verus! {

/// Largest chunk accepted by one append to an upload session: 8 MiB.
pub const MAX_UPLOAD_CHUNK_SIZE: u64 = 8388608;

/// A client-chosen key that makes a command safe to retry.
#[derive(Debug)]
pub struct IdempotencyKey {
    value: String,
}

impl View for IdempotencyKey {
    type V = Seq<char>;

    closed spec fn view(&self) -> Seq<char> {
        self.value@
    }
}

impl IdempotencyKey {
    /// Keys are never empty.
    #[verifier::type_invariant]
    pub open spec fn wf(self) -> bool {
        self@.len() > 0
    }

    pub fn new(value: &str) -> (r: Result<IdempotencyKey, CoreError>)
        ensures
            match r {
                Ok(k) => value@.len() > 0 && k@ == value@,
                Err(e) => value@.len() == 0 && e == (CoreError::InvalidFormat {
                    field: crate::error::FormatField::IdempotencyKey,
                }),
            },
    {
        if value.unicode_len() == 0 {
            return Err(CoreError::InvalidFormat { field: crate::error::FormatField::IdempotencyKey });
        }
        Ok(IdempotencyKey { value: value.to_owned() })
    }

    pub fn as_str(&self) -> (r: &str)
        ensures
            r@ == self@,
    {
        self.value.as_str()
    }
}

impl Clone for IdempotencyKey {
    fn clone(&self) -> (r: Self)
        ensures
            r@ == self@,
    {
        proof {
            use_type_invariant(self);
        }
        IdempotencyKey { value: self.value.clone() }
    }
}

/// The view of an optional kind.
pub open spec fn opt_kind(o: Option<ResourceKind>) -> Option<Seq<char>> {
    match o {
        Some(k) => Some(k@),
        None => None,
    }
}

/// Start a streamed upload of a new Resource.
#[derive(Debug)]
pub struct CreateUpload {
    pub name: String,
    pub kind: Option<ResourceKind>,
    pub directory_id: DirectoryId,
    pub mime_type: Option<String>,
    pub expected_size: u64,
    pub expected_checksum: Checksum,
    pub idempotency_key: Option<IdempotencyKey>,
}

impl CreateUpload {
    pub fn new(name: &str, directory_id: DirectoryId, expected_size: u64, expected_checksum: Checksum) -> (r:
        CreateUpload)
        ensures
            r.name@ == name@,
            r.directory_id == directory_id,
            r.expected_size == expected_size,
            r.expected_checksum@ == expected_checksum@,
            r.kind is None,
            r.mime_type is None,
            r.idempotency_key is None,
    {
        CreateUpload {
            name: name.to_owned(),
            kind: None,
            directory_id,
            mime_type: None,
            expected_size,
            expected_checksum,
            idempotency_key: None,
        }
    }

    pub fn with_kind(self, kind: ResourceKind) -> (r: CreateUpload)
        ensures
            r == (CreateUpload { kind: Some(kind), ..self }),
    {
        CreateUpload { kind: Some(kind), ..self }
    }

    pub fn with_mime_type(self, mime_type: &str) -> (r: CreateUpload)
        ensures
            opt_str(r.mime_type) == Some(mime_type@),
            r.name == self.name,
            r.kind == self.kind,
            r.directory_id == self.directory_id,
            r.expected_size == self.expected_size,
            r.expected_checksum == self.expected_checksum,
            r.idempotency_key == self.idempotency_key,
    {
        CreateUpload { mime_type: Some(mime_type.to_owned()), ..self }
    }

    pub fn with_idempotency_key(self, key: IdempotencyKey) -> (r: CreateUpload)
        ensures
            r == (CreateUpload { idempotency_key: Some(key), ..self }),
    {
        CreateUpload { idempotency_key: Some(key), ..self }
    }

    pub fn directory_id(&self) -> (r: DirectoryId)
        ensures
            r == self.directory_id,
    {
        self.directory_id
    }

    pub fn idempotency_key(&self) -> (r: Option<&IdempotencyKey>)
        ensures
            match r {
                Some(k) => self.idempotency_key == Some(*k),
                None => self.idempotency_key is None,
            },
    {
        self.idempotency_key.as_ref()
    }
}

/// Start a streamed upload that replaces a Resource's content.
#[derive(Debug)]
pub struct CreateContentReplacementUpload {
    pub expected_size: u64,
    pub expected_checksum: Checksum,
    pub expected_revision: u64,
    pub mime_type: Option<String>,
    pub idempotency_key: Option<IdempotencyKey>,
}

impl CreateContentReplacementUpload {
    pub fn new(expected_size: u64, expected_checksum: Checksum, expected_revision: u64) -> (r:
        CreateContentReplacementUpload)
        ensures
            r.expected_size == expected_size,
            r.expected_checksum@ == expected_checksum@,
            r.expected_revision == expected_revision,
            r.mime_type is None,
            r.idempotency_key is None,
    {
        CreateContentReplacementUpload {
            expected_size,
            expected_checksum,
            expected_revision,
            mime_type: None,
            idempotency_key: None,
        }
    }

    pub fn with_mime_type(self, mime_type: &str) -> (r: CreateContentReplacementUpload)
        ensures
            opt_str(r.mime_type) == Some(mime_type@),
            r.expected_size == self.expected_size,
            r.expected_checksum == self.expected_checksum,
            r.expected_revision == self.expected_revision,
            r.idempotency_key == self.idempotency_key,
    {
        CreateContentReplacementUpload { mime_type: Some(mime_type.to_owned()), ..self }
    }

    pub fn with_idempotency_key(self, key: IdempotencyKey) -> (r: CreateContentReplacementUpload)
        ensures
            r == (CreateContentReplacementUpload { idempotency_key: Some(key), ..self }),
    {
        CreateContentReplacementUpload { idempotency_key: Some(key), ..self }
    }

    pub fn idempotency_key(&self) -> (r: Option<&IdempotencyKey>)
        ensures
            match r {
                Some(k) => self.idempotency_key == Some(*k),
                None => self.idempotency_key is None,
            },
    {
        self.idempotency_key.as_ref()
    }
}

/// Replace a Resource's content by a stream of declared size and checksum.
#[derive(Debug)]
pub struct ReplaceResourceContent {
    pub expected_size: u64,
    pub expected_checksum: Checksum,
    pub expected_revision: u64,
    pub mime_type: Option<String>,
}

impl ReplaceResourceContent {
    pub fn new(expected_size: u64, expected_checksum: Checksum, expected_revision: u64) -> (r:
        ReplaceResourceContent)
        ensures
            r.expected_size == expected_size,
            r.expected_checksum@ == expected_checksum@,
            r.expected_revision == expected_revision,
            r.mime_type is None,
    {
        ReplaceResourceContent { expected_size, expected_checksum, expected_revision, mime_type: None }
    }

    pub fn with_mime_type(self, mime_type: &str) -> (r: ReplaceResourceContent)
        ensures
            opt_str(r.mime_type) == Some(mime_type@),
            r.expected_size == self.expected_size,
            r.expected_checksum == self.expected_checksum,
            r.expected_revision == self.expected_revision,
    {
        ReplaceResourceContent { mime_type: Some(mime_type.to_owned()), ..self }
    }
}

/// A partial update of a Resource guarded by its expected revision.
#[derive(Debug)]
pub struct UpdateResource {
    pub expected_revision: u64,
    pub name: Option<String>,
    pub directory_id: Option<DirectoryId>,
    pub kind: Option<ResourceKind>,
}

impl UpdateResource {
    pub fn new(expected_revision: u64) -> (r: UpdateResource)
        ensures
            r.expected_revision == expected_revision,
            r.name is None,
            r.directory_id is None,
            r.kind is None,
    {
        UpdateResource { expected_revision, name: None, directory_id: None, kind: None }
    }

    pub fn with_name(self, name: &str) -> (r: UpdateResource)
        ensures
            opt_str(r.name) == Some(name@),
            r.expected_revision == self.expected_revision,
            r.directory_id == self.directory_id,
            r.kind == self.kind,
    {
        UpdateResource { name: Some(name.to_owned()), ..self }
    }

    pub fn with_directory_id(self, directory_id: DirectoryId) -> (r: UpdateResource)
        ensures
            r == (UpdateResource { directory_id: Some(directory_id), ..self }),
    {
        UpdateResource { directory_id: Some(directory_id), ..self }
    }

    pub fn with_kind(self, kind: ResourceKind) -> (r: UpdateResource)
        ensures
            r == (UpdateResource { kind: Some(kind), ..self }),
    {
        UpdateResource { kind: Some(kind), ..self }
    }

    pub fn directory_id(&self) -> (r: Option<DirectoryId>)
        ensures
            r == self.directory_id,
    {
        self.directory_id
    }
}

/// Streamed Resource content with its media type and length.
pub struct ResourceContentStream<S> {
    content_type: String,
    content_length: u64,
    content: S,
}

impl<S> ResourceContentStream<S> {
    pub closed spec fn spec_content_type(&self) -> Seq<char> {
        self.content_type@
    }

    pub closed spec fn spec_content_length(&self) -> u64 {
        self.content_length
    }

    pub closed spec fn spec_content(&self) -> S {
        self.content
    }

    pub fn new(content_type: String, content_length: u64, content: S) -> (r: ResourceContentStream<S>)
        ensures
            r.spec_content_type() == content_type@,
            r.spec_content_length() == content_length,
            r.spec_content() == content,
    {
        ResourceContentStream { content_type, content_length, content }
    }

    pub fn content_type(&self) -> (r: &str)
        ensures
            r@ == self.spec_content_type(),
    {
        self.content_type.as_str()
    }

    pub fn content_length(&self) -> (r: u64)
        ensures
            r == self.spec_content_length(),
    {
        self.content_length
    }

    pub fn into_content(self) -> (r: S)
        ensures
            r == self.spec_content(),
    {
        self.content
    }
}

/// Streamed preview content whose length may be unknown.
pub struct ResourcePreviewStream<S> {
    content_type: String,
    content_length: Option<u64>,
    content: S,
}

impl<S> ResourcePreviewStream<S> {
    pub closed spec fn spec_content_type(&self) -> Seq<char> {
        self.content_type@
    }

    pub closed spec fn spec_content_length(&self) -> Option<u64> {
        self.content_length
    }

    pub closed spec fn spec_content(&self) -> S {
        self.content
    }

    pub fn new(content_type: String, content_length: Option<u64>, content: S) -> (r:
        ResourcePreviewStream<S>)
        ensures
            r.spec_content_type() == content_type@,
            r.spec_content_length() == content_length,
            r.spec_content() == content,
    {
        ResourcePreviewStream { content_type, content_length, content }
    }

    pub fn content_type(&self) -> (r: &str)
        ensures
            r@ == self.spec_content_type(),
    {
        self.content_type.as_str()
    }

    pub fn content_length(&self) -> (r: Option<u64>)
        ensures
            r == self.spec_content_length(),
    {
        self.content_length
    }

    pub fn into_content(self) -> (r: S)
        ensures
            r == self.spec_content(),
    {
        self.content
    }
}

} // verus!
