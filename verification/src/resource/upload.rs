//! Streamed uploads: the upload session aggregate, size accounting of incoming chunks, and the
//! decisions of appending, completing and finalizing an upload.

use crate::domain::checksum::Checksum;
use crate::domain::ids::{uuid_text, DirectoryId, ResourceId, UploadId, UserId};
use crate::domain::path::{slash_join, valid_segment, StorageKey};
use crate::domain::resource::{opt_text, DirectoryLocation, Resource, ResourceKind};
use crate::error::{Conflict, CoreError, FormatField, Invariant, LimitSubject, Subject};
use crate::resource::contract::MAX_UPLOAD_CHUNK_SIZE;
use crate::resource::path_resolver::{chunk_suffix, upload_chunk_key, upload_staging_key, uploads_dir};
use crate::text::chars_of;
use vstd::prelude::*;

verus! {

/// The lifecycle status of an upload session.
#[derive(Debug, Clone, Copy, PartialEq, Eq, Structural)]
pub enum UploadStatus {
    Uploading,
    Finalizing,
    Completed,
    Failed,
}

impl UploadStatus {
    /// The status name.
    pub fn as_str(&self) -> (r: &'static str)
        ensures
            r@ == match *self {
                UploadStatus::Uploading => "uploading"@,
                UploadStatus::Finalizing => "finalizing"@,
                UploadStatus::Completed => "completed"@,
                UploadStatus::Failed => "failed"@,
            },
    {
        match self {
            UploadStatus::Uploading => "uploading",
            UploadStatus::Finalizing => "finalizing",
            UploadStatus::Completed => "completed",
            UploadStatus::Failed => "failed",
        }
    }
}

pub struct UploadSessionView {
    pub id: UploadId,
    pub owner_id: UserId,
    pub resource_id: ResourceId,
    pub name: Seq<char>,
    pub directory_id: DirectoryId,
    pub kind: Seq<char>,
    pub mime_type: Option<Seq<char>>,
    pub expected_size: u64,
    pub expected_checksum: Seq<char>,
    pub offset: u64,
    pub status: UploadStatus,
    pub actual_checksum: Option<Seq<char>>,
}

/// A resumable upload of the content of a new Resource. The Resource identity is reserved when
/// the session starts; `offset` counts the bytes staged so far.
#[derive(Debug)]
pub struct UploadSession {
    id: UploadId,
    owner_id: UserId,
    resource_id: ResourceId,
    name: String,
    directory_id: DirectoryId,
    kind: ResourceKind,
    mime_type: Option<String>,
    expected_size: u64,
    expected_checksum: Checksum,
    offset: u64,
    status: UploadStatus,
    actual_checksum: Option<Checksum>,
}

/// The view of an optional checksum.
pub open spec fn opt_sum(o: Option<Checksum>) -> Option<Seq<char>> {
    match o {
        Some(c) => Some(c@),
        None => None,
    }
}

impl View for UploadSession {
    type V = UploadSessionView;

    closed spec fn view(&self) -> UploadSessionView {
        UploadSessionView {
            id: self.id,
            owner_id: self.owner_id,
            resource_id: self.resource_id,
            name: self.name@,
            directory_id: self.directory_id,
            kind: self.kind@,
            mime_type: opt_text(self.mime_type),
            expected_size: self.expected_size,
            expected_checksum: self.expected_checksum@,
            offset: self.offset,
            status: self.status,
            actual_checksum: opt_sum(self.actual_checksum),
        }
    }
}

impl UploadSession {
    /// The name is a valid Resource name and no more than the declared size is staged.
    #[verifier::type_invariant]
    pub open spec fn wf(self) -> bool {
        valid_segment(self@.name) && self@.offset <= self@.expected_size && self@.kind.len() > 0
    }

    /// Start an upload of `expected_size` bytes for a new Resource `name` in a Directory.
    pub fn new(
        owner_id: UserId,
        name: &str,
        directory_id: DirectoryId,
        kind: ResourceKind,
        mime_type: Option<String>,
        expected_size: u64,
        expected_checksum: Checksum,
    ) -> (r: Result<UploadSession, CoreError>)
        ensures
            match r {
                Ok(s) => valid_segment(name@) && s@.owner_id == owner_id && s@.name == name@
                    && s@.directory_id == directory_id && s@.kind == kind@ && s@.mime_type
                    == opt_text(mime_type) && s@.expected_size == expected_size
                    && s@.expected_checksum == expected_checksum@ && s@.offset == 0 && s@.status
                    == UploadStatus::Uploading && s@.actual_checksum is None,
                Err(e) => !valid_segment(name@) && e == (CoreError::InvalidFormat {
                    field: FormatField::ResourceName,
                }),
            },
    {
        proof {
            use_type_invariant(&kind);
        }
        let chars = chars_of(name);
        if !crate::domain::path::is_valid_segment(&chars) {
            return Err(CoreError::InvalidFormat { field: FormatField::ResourceName });
        }
        Ok(
            UploadSession {
                id: UploadId::new(),
                owner_id,
                resource_id: ResourceId::new(),
                name: name.to_owned(),
                directory_id,
                kind,
                mime_type,
                expected_size,
                expected_checksum,
                offset: 0,
                status: UploadStatus::Uploading,
                actual_checksum: None,
            },
        )
    }

    /// Rebuild a persisted session; a stored name that is not a valid Resource name or an
    /// offset beyond the declared size is refused.
    pub fn rehydrate(
        id: UploadId,
        owner_id: UserId,
        resource_id: ResourceId,
        name: &str,
        directory_id: DirectoryId,
        kind: ResourceKind,
        mime_type: Option<String>,
        expected_size: u64,
        expected_checksum: Checksum,
        offset: u64,
        status: UploadStatus,
        actual_checksum: Option<Checksum>,
    ) -> (r: Result<UploadSession, CoreError>)
        ensures
            match r {
                Ok(s) => valid_segment(name@) && offset <= expected_size && s@ == (UploadSessionView {
                    id,
                    owner_id,
                    resource_id,
                    name: name@,
                    directory_id,
                    kind: kind@,
                    mime_type: opt_text(mime_type),
                    expected_size,
                    expected_checksum: expected_checksum@,
                    offset,
                    status,
                    actual_checksum: opt_sum(actual_checksum),
                }),
                Err(e) => if !valid_segment(name@) {
                    e == (CoreError::InvalidFormat { field: FormatField::ResourceName })
                } else {
                    offset > expected_size && e == CoreError::Conflict(
                        Conflict::UploadOffsetExceedsExpectedSize,
                    )
                },
            },
    {
        proof {
            use_type_invariant(&kind);
        }
        let chars = chars_of(name);
        if !crate::domain::path::is_valid_segment(&chars) {
            return Err(CoreError::InvalidFormat { field: FormatField::ResourceName });
        }
        if offset > expected_size {
            return Err(CoreError::Conflict(Conflict::UploadOffsetExceedsExpectedSize));
        }
        Ok(
            UploadSession {
                id,
                owner_id,
                resource_id,
                name: name.to_owned(),
                directory_id,
                kind,
                mime_type,
                expected_size,
                expected_checksum,
                offset,
                status,
                actual_checksum,
            },
        )
    }

    pub fn id(&self) -> (r: UploadId)
        ensures
            r == self@.id,
    {
        self.id
    }

    pub fn owner_id(&self) -> (r: UserId)
        ensures
            r == self@.owner_id,
    {
        self.owner_id
    }

    pub fn resource_id(&self) -> (r: ResourceId)
        ensures
            r == self@.resource_id,
    {
        self.resource_id
    }

    pub fn name(&self) -> (r: &str)
        ensures
            r@ == self@.name,
    {
        self.name.as_str()
    }

    pub fn directory_id(&self) -> (r: DirectoryId)
        ensures
            r == self@.directory_id,
    {
        self.directory_id
    }

    pub fn kind(&self) -> (r: &ResourceKind)
        ensures
            r@ == self@.kind,
    {
        &self.kind
    }

    pub fn mime_type(&self) -> (r: Option<&str>)
        ensures
            match r {
                Some(m) => self@.mime_type == Some(m@),
                None => self@.mime_type is None,
            },
    {
        match &self.mime_type {
            Some(m) => Some(m.as_str()),
            None => None,
        }
    }

    pub fn expected_size(&self) -> (r: u64)
        ensures
            r == self@.expected_size,
    {
        self.expected_size
    }

    pub fn expected_checksum(&self) -> (r: &Checksum)
        ensures
            r@ == self@.expected_checksum,
    {
        &self.expected_checksum
    }

    pub fn offset(&self) -> (r: u64)
        ensures
            r == self@.offset,
    {
        self.offset
    }

    pub fn status(&self) -> (r: UploadStatus)
        ensures
            r == self@.status,
    {
        self.status
    }

    pub fn actual_checksum(&self) -> (r: Option<&Checksum>)
        ensures
            match r {
                Some(c) => self@.actual_checksum == Some(c@),
                None => self@.actual_checksum is None,
            },
    {
        self.actual_checksum.as_ref()
    }

    /// Record the number of staged bytes, which never exceeds the declared size.
    pub fn synchronize_offset(&mut self, offset: u64) -> (r: Result<(), CoreError>)
        ensures
            match r {
                Ok(_) => offset <= old(self)@.expected_size && final(self)@ == (UploadSessionView {
                    offset,
                    ..old(self)@
                }),
                Err(e) => offset > old(self)@.expected_size && final(self)@ == old(self)@ && e
                    == CoreError::Conflict(Conflict::UploadOffsetExceedsExpectedSize),
            },
    {
        proof {
            use_type_invariant(&*self);
        }
        if offset > self.expected_size {
            return Err(CoreError::Conflict(Conflict::UploadOffsetExceedsExpectedSize));
        }
        self.offset = offset;
        Ok(())
    }

    /// Stop accepting chunks: only a complete upload that is still uploading can be finalized.
    pub fn mark_finalizing(&mut self) -> (r: Result<(), CoreError>)
        ensures
            match r {
                Ok(_) => old(self)@.status == UploadStatus::Uploading && old(self)@.offset == old(
                    self,
                )@.expected_size && final(self)@ == (UploadSessionView {
                    status: UploadStatus::Finalizing,
                    ..old(self)@
                }),
                Err(e) => final(self)@ == old(self)@ && ((old(self)@.status
                    != UploadStatus::Uploading && e == CoreError::Conflict(
                    Conflict::UploadCannotBeFinalized,
                )) || (old(self)@.status == UploadStatus::Uploading && old(self)@.offset != old(
                    self,
                )@.expected_size && e == CoreError::Conflict(Conflict::UploadIncomplete))),
            },
    {
        proof {
            use_type_invariant(&*self);
        }
        if self.status != UploadStatus::Uploading {
            return Err(CoreError::Conflict(Conflict::UploadCannotBeFinalized));
        }
        if self.offset != self.expected_size {
            return Err(CoreError::Conflict(Conflict::UploadIncomplete));
        }
        self.status = UploadStatus::Finalizing;
        Ok(())
    }

    /// Remember the checksum computed over the staged content.
    pub fn set_actual_checksum(&mut self, checksum: Checksum) -> (r: Result<(), CoreError>)
        ensures
            r is Ok,
            final(self)@ == (UploadSessionView { actual_checksum: Some(checksum@), ..old(self)@ }),
    {
        proof {
            use_type_invariant(&*self);
        }
        self.actual_checksum = Some(checksum);
        Ok(())
    }
}

impl Clone for UploadSession {
    fn clone(&self) -> (r: Self)
        ensures
            r@ == self@,
    {
        proof {
            use_type_invariant(self);
        }
        let mime_type = match &self.mime_type {
            Some(m) => Some(m.clone()),
            None => None,
        };
        let actual_checksum = match &self.actual_checksum {
            Some(c) => Some(c.clone()),
            None => None,
        };
        UploadSession {
            id: self.id,
            owner_id: self.owner_id,
            resource_id: self.resource_id,
            name: self.name.clone(),
            directory_id: self.directory_id,
            kind: self.kind.clone(),
            mime_type,
            expected_size: self.expected_size,
            expected_checksum: self.expected_checksum.clone(),
            offset: self.offset,
            status: self.status,
            actual_checksum,
        }
    }
}

/// A staged Blob: an internal key and the bytes written to it.
#[derive(Debug)]
pub struct StagedBlob {
    key: StorageKey,
    bytes_written: u64,
}

impl View for StagedBlob {
    type V = (Seq<char>, u64);

    closed spec fn view(&self) -> (Seq<char>, u64) {
        (self.key@, self.bytes_written)
    }
}

impl StagedBlob {
    pub fn new(key: StorageKey, bytes_written: u64) -> (r: StagedBlob)
        ensures
            r@ == (key@, bytes_written),
    {
        StagedBlob { key, bytes_written }
    }

    pub fn key(&self) -> (r: &StorageKey)
        ensures
            r@ == self@.0,
    {
        &self.key
    }

    pub fn bytes_written(&self) -> (r: u64)
        ensures
            r == self@.1,
    {
        self.bytes_written
    }
}

impl Clone for StagedBlob {
    fn clone(&self) -> (r: Self)
        ensures
            r@ == self@,
    {
        StagedBlob { key: self.key.clone(), bytes_written: self.bytes_written }
    }
}

/// The staging key of an upload's content.
pub open spec fn staged_key_of(id: UploadId) -> Seq<char> {
    slash_join(uploads_dir(), uuid_text(id.0))
}

/// The staging key of the chunk an upload is receiving.
pub open spec fn chunk_key_of(id: UploadId) -> Seq<char> {
    slash_join(uploads_dir(), uuid_text(id.0)) + chunk_suffix()
}

/// The staged content of an upload, as an empty staged Blob.
pub fn staged_for(id: UploadId) -> (r: Result<StagedBlob, CoreError>)
    ensures
        r matches Ok(b) && b@ == (staged_key_of(id), 0u64),
{
    let key = upload_staging_key(id)?;
    Ok(StagedBlob::new(key, 0))
}

/// The chunk an upload is receiving, as an empty staged Blob.
pub fn chunk_for(id: UploadId) -> (r: Result<StagedBlob, CoreError>)
    ensures
        r matches Ok(b) && b@ == (chunk_key_of(id), 0u64),
{
    let key = upload_chunk_key(id)?;
    Ok(StagedBlob::new(key, 0))
}

fn staged(id: UploadId) -> (b: StagedBlob)
    ensures
        b@ == (staged_key_of(id), 0u64),
{
    staged_for(id).unwrap()
}

fn chunk(id: UploadId) -> (b: StagedBlob)
    ensures
        b@ == (chunk_key_of(id), 0u64),
{
    chunk_for(id).unwrap()
}

/// Account one more piece of the chunk one append carries to an upload that may still receive
/// `remaining` bytes. `received` counts the bytes of this chunk so far. A chunk takes at most
/// `MAX_UPLOAD_CHUNK_SIZE` bytes (8 MiB) and no more than the declared size leaves. Returns the
/// new total received.
pub fn accept_upload_chunk(received: u64, chunk_len: u64, remaining: u64) -> (r: Result<u64, CoreError>)
    ensures
        match r {
            Ok(total) => total == received + chunk_len && total <= remaining && total
                <= MAX_UPLOAD_CHUNK_SIZE,
            Err(e) => if received + chunk_len > u64::MAX {
                e == CoreError::Invariant(Invariant::UploadSizeOverflow)
            } else if received + chunk_len > remaining {
                e == CoreError::Conflict(Conflict::UploadChunkExceedsDeclaredSize)
            } else {
                received + chunk_len > MAX_UPLOAD_CHUNK_SIZE && e == (CoreError::LimitExceeded {
                    subject: LimitSubject::UploadChunk,
                    limit: MAX_UPLOAD_CHUNK_SIZE,
                    actual: (received + chunk_len) as u64,
                })
            },
        },
{
    let total = match received.checked_add(chunk_len) {
        Some(t) => t,
        None => {
            return Err(CoreError::Invariant(Invariant::UploadSizeOverflow));
        },
    };
    if total > remaining {
        return Err(CoreError::Conflict(Conflict::UploadChunkExceedsDeclaredSize));
    }
    if total > MAX_UPLOAD_CHUNK_SIZE {
        return Err(
            CoreError::LimitExceeded { subject: LimitSubject::UploadChunk, limit: MAX_UPLOAD_CHUNK_SIZE, actual: total },
        );
    }
    Ok(total)
}

/// The error reported for an upload that does not exist or belongs to someone else.
pub open spec fn upload_not_found(id: UploadId) -> CoreError {
    CoreError::NotFound { subject: Subject::Upload, id: id.0 }
}

/// Check that a loaded session exists and belongs to `owner_id`; a session of another owner is
/// reported as missing.
pub fn owned_session(owner_id: UserId, id: UploadId, found: Option<UploadSession>) -> (r: Result<
    UploadSession,
    CoreError,
>)
    ensures
        match found {
            None => r == Err::<UploadSession, CoreError>(upload_not_found(id)),
            Some(s) => if s@.owner_id == owner_id {
                r matches Ok(t) && t@ == s@
            } else {
                r == Err::<UploadSession, CoreError>(upload_not_found(id))
            },
        },
{
    match found {
        None => Err(CoreError::NotFound { subject: Subject::Upload, id: id.0 }),
        Some(s) => {
            if s.owner_id() != owner_id {
                Err(CoreError::NotFound { subject: Subject::Upload, id: id.0 })
            } else {
                Ok(s)
            }
        },
    }
}

} // verus!
