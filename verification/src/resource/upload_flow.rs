//! Decisions of the upload service. Each workflow is a state machine: the caller performs the
//! returned [`UploadAction`], reports its outcome as an [`UploadEvent`], and steps again until
//! the action is `Finish`.

use crate::domain::checksum::Checksum;
use crate::domain::ids::{DirectoryId, ResourceId, UploadId, UserId};
use crate::domain::path::StorageKey;
use crate::domain::resource::{opt_text, DirectoryLocation, Resource, ResourceContent, ResourceKind};
use crate::domain::path::valid_segment;
use crate::resource::contract::CreateUpload;
use crate::resource::path_resolver::{generated_staging_base, in_reserved_namespace, resource_key_text};
use crate::error::{Conflict, CoreError, Invariant, Subject};
use crate::resource::query::LocatedResource;
use crate::resource::upload::{
    chunk_for, chunk_key_of, owned_session, staged_for, staged_key_of, upload_not_found,
    StagedBlob, UploadSession, UploadSessionView, UploadStatus,
};
use vstd::prelude::*;

verus! {

/// Size and modification time of a stored Blob.
#[derive(Debug, Clone, Copy)]
pub struct StoredBlob {
    pub size: u64,
    pub modified_at: i64,
}

/// The outcome of the last performed action.
#[derive(Debug)]
pub enum UploadEvent {
    /// No action was performed yet.
    Started,
    /// The session repository returned this session.
    SessionLoaded(Option<UploadSession>),
    /// The Resource store returned this aggregate.
    ResourceLoaded(Option<Resource>),
    /// The bytes written to a staged Blob, if it exists.
    StagedSize(Option<u64>),
    /// Whether a guarded write applied.
    Applied(bool),
    /// The chunk stream was appended; this is the checksum of the bytes it carried.
    ChunkAppended(Checksum),
    /// The staged content now holds this many bytes.
    Written(u64),
    /// The staged chunk to copy was missing.
    ChunkMissing,
    /// The checksum of a Blob, if it exists.
    ChecksumComputed(Option<Checksum>),
    /// The Directory was located.
    DirectoryLocated(DirectoryLocation),
    /// The read model returned this located Resource.
    ResourceFound(Option<LocatedResource>),
    /// The storage scanner returned this Blob.
    Stored(Option<StoredBlob>),
    /// The finalization workflow ended with this result.
    Finalized(Result<Resource, CoreError>),
    /// The kind registry resolved the kind of new content.
    KindResolved(ResourceKind),
    /// The action completed.
    Completed,
    /// The action failed.
    Failed(CoreError),
}

/// What a finished workflow hands back.
#[derive(Debug)]
pub enum UploadOutcome {
    Session(UploadSession),
    Finalization(UploadSession, bool),
    Resource(Resource),
    Located(LocatedResource),
    Aborted,
}

/// The next operation to perform.
#[derive(Debug)]
pub enum UploadAction {
    /// Load an upload session.
    LoadSession(UploadId),
    /// Load a Resource aggregate.
    LoadResource(ResourceId),
    /// Report the bytes written to a staged Blob.
    InspectStaged(StorageKey),
    /// Move the session offset from `from` to `to` if it still is `from`.
    UpdateOffset { id: UploadId, from: u64, to: u64 },
    /// Discard a staged Blob.
    DiscardStaged(StagedBlob),
    /// Create an empty staged Blob.
    CreateStaged(StorageKey),
    /// Stream the chunk into the staged chunk Blob, accepting at most `remaining` bytes, and
    /// report the checksum of what was received.
    AppendChunk { chunk: StorageKey, remaining: u64 },
    /// Append the staged chunk to the staged content at `offset`.
    AppendFromChunk { chunk: StorageKey, staged: StorageKey, offset: u64 },
    /// Mark the session finalizing if it is still uploading.
    MarkFinalizing(UploadId),
    /// Mark the session completed.
    MarkCompleted(UploadId),
    /// Record that finalizing the session failed with `error`, then end the workflow with that
    /// error. A failure to record it is only logged.
    MarkFailed { id: UploadId, error: CoreError },
    /// Run the finalization workflow of this session and report its result.
    RunFinalization(UploadSession),
    /// Resolve the kind of new content: the given kind or the one detected from the MIME type
    /// and key, which must be registered and support content.
    ResolveKind { kind: Option<ResourceKind>, mime_type: Option<String>, storage_key: StorageKey },
    /// Append the generated bytes to the staged Blob and report the bytes written.
    AppendGenerated(StorageKey),
    /// Compute the checksum of a Blob.
    ComputeChecksum(StorageKey),
    /// Persist the checksum computed over the staged content.
    SaveActualChecksum { id: UploadId, checksum: Checksum },
    /// Locate a Directory.
    LocateDirectory(DirectoryId),
    /// Find the Resource named `name` in a Directory.
    FindByDirectoryAndName { directory_id: DirectoryId, name: String },
    /// Publish a staged Blob at a vacant visible key.
    PublishStaged { staged: StagedBlob, to: StorageKey },
    /// Report the size and modification time of a Blob.
    Inspect(StorageKey),
    /// Insert a new Resource aggregate.
    InsertResource(Resource),
    /// Delete the aggregate if it still has the revision.
    DeleteIfRevision { id: ResourceId, revision: u64 },
    /// Delete a visible Blob.
    DeleteBlob(StorageKey),
    /// Persist a new session.
    SaveSession(UploadSession),
    /// Remove a session.
    RemoveSession(UploadId),
    /// The workflow ended with this result.
    Finish(Result<UploadOutcome, CoreError>),
}

/// The error reported for an event that does not answer the pending action.
pub open spec fn unexpected_upload_event() -> CoreError {
    CoreError::Invariant(Invariant::UnexpectedRecoveryEvent)
}

fn unexpected() -> (e: CoreError)
    ensures
        e == unexpected_upload_event(),
{
    CoreError::Invariant(Invariant::UnexpectedRecoveryEvent)
}

/// The outcome of comparing a session with its staged content.
#[derive(Debug)]
pub enum OffsetSync {
    /// The session is in sync.
    Synced(UploadSession),
    /// The staged content holds `actual` bytes: move the stored offset there.
    Update { session: UploadSession, actual: u64 },
    /// Synchronization failed.
    Fail(CoreError),
}

/// Compare a session with the size of its staged content: the staged content must exist and
/// never exceed the declared size; a different size moves the offset.
pub fn offset_sync(session: UploadSession, actual: Option<u64>) -> (r: OffsetSync)
    ensures
        match actual {
            None => r == OffsetSync::Fail(
                CoreError::NotFound { subject: Subject::StagedUpload, id: session@.id.0 },
            ),
            Some(a) => if a > session@.expected_size {
                r == OffsetSync::Fail(CoreError::Conflict(Conflict::StagedUploadExceedsDeclaredSize))
            } else if a != session@.offset {
                r matches OffsetSync::Update { session: s, actual: x } && s@ == session@ && x == a
            } else {
                r matches OffsetSync::Synced(s) && s@ == session@
            },
        },
{
    match actual {
        None => OffsetSync::Fail(CoreError::NotFound { subject: Subject::StagedUpload, id: session.id().0 }),
        Some(a) => {
            if a > session.expected_size() {
                OffsetSync::Fail(CoreError::Conflict(Conflict::StagedUploadExceedsDeclaredSize))
            } else if a != session.offset() {
                OffsetSync::Update { session, actual: a }
            } else {
                OffsetSync::Synced(session)
            }
        },
    }
}

/// Apply the outcome of the guarded offset write.
pub fn offset_updated(session: UploadSession, actual: u64, applied: bool) -> (r: Result<
    UploadSession,
    CoreError,
>)
    requires
        actual <= session@.expected_size,
    ensures
        if applied {
            r matches Ok(s) && s@ == (UploadSessionView { offset: actual, ..session@ })
        } else {
            r == Err::<UploadSession, CoreError>(
                CoreError::Conflict(Conflict::UploadOffsetChangedConcurrently),
            )
        },
{
    if !applied {
        return Err(CoreError::Conflict(Conflict::UploadOffsetChangedConcurrently));
    }
    let mut session = session;
    match session.synchronize_offset(actual) {
        Ok(_) => Ok(session),
        Err(e) => Err(e),
    }
}

/// The inputs of an append.
#[derive(Debug)]
pub struct AppendRun {
    pub owner_id: UserId,
    pub id: UploadId,
    pub requested_offset: u64,
    pub expected_chunk_checksum: Checksum,
}

/// Phases of appending one chunk to an upload.
#[derive(Debug)]
pub enum AppendPhase {
    Start,
    AwaitSession,
    AwaitSync { session: UploadSession },
    AwaitSyncWrite { session: UploadSession, actual: u64 },
    AwaitChunkReset { session: UploadSession },
    AwaitChunkCreated { session: UploadSession },
    AwaitChunk { session: UploadSession },
    AwaitStagedAppend { session: UploadSession },
    AwaitOffsetWrite { session: UploadSession, written: u64 },
    AwaitCleanup { session: UploadSession, result: Result<u64, CoreError> },
    Finished,
}

/// Pending actual sizes fit the declared size, and once the offset is synchronized it is the
/// requested one.
pub open spec fn append_wf(run: AppendRun, state: AppendPhase) -> bool {
    match state {
        AppendPhase::AwaitSyncWrite { session, actual } => actual <= session@.expected_size,
        AppendPhase::AwaitChunkReset { session } => session@.offset == run.requested_offset,
        AppendPhase::AwaitChunkCreated { session } => session@.offset == run.requested_offset,
        AppendPhase::AwaitChunk { session } => session@.offset == run.requested_offset,
        AppendPhase::AwaitStagedAppend { session } => session@.offset == run.requested_offset,
        _ => true,
    }
}

/// Safety of an append: the staged content is only extended from the staged chunk, at the
/// session's synchronized offset, after the chunk's checksum matched; the offset is only moved to
/// what was staged; the only Blob discarded is the chunk.
pub open spec fn append_safe(run: AppendRun, state: AppendPhase, event: UploadEvent, a: UploadAction) -> bool {
    match a {
        UploadAction::AppendFromChunk { chunk, staged, offset } => chunk@ == chunk_key_of(run.id)
            && staged@ == staged_key_of(run.id) && (state matches AppendPhase::AwaitChunk {
            session,
        } && offset == session@.offset && offset == run.requested_offset) && (event matches UploadEvent::ChunkAppended(
            c,
        ) && c@ == run.expected_chunk_checksum@),
        UploadAction::UpdateOffset { id, from, to } => id == run.id && ((state matches AppendPhase::AwaitSync {
            session,
        } && from == session@.offset && event == UploadEvent::StagedSize(Some(to)))
            || (state matches AppendPhase::AwaitStagedAppend { session } && from == session@.offset
            && event == UploadEvent::Written(to))),
        UploadAction::DiscardStaged(b) => b@.0 == chunk_key_of(run.id),
        UploadAction::CreateStaged(k) => k@ == chunk_key_of(run.id),
        UploadAction::AppendChunk { chunk, remaining } => chunk@ == chunk_key_of(run.id) && (state matches AppendPhase::AwaitChunkCreated {
            session,
        } && remaining == session@.expected_size - session@.offset),
        UploadAction::LoadSession(id) => id == run.id,
        UploadAction::InspectStaged(k) => k@ == staged_key_of(run.id),
        UploadAction::Finish(_) => true,
        _ => false,
    }
}

fn stop(e: CoreError) -> (r: (AppendPhase, UploadAction))
    ensures
        r.0 is Finished && r.1 == UploadAction::Finish(Err(e)),
{
    (AppendPhase::Finished, UploadAction::Finish(Err(e)))
}

fn cleanup(id: UploadId, session: UploadSession, result: Result<u64, CoreError>) -> (r: (
    AppendPhase,
    UploadAction,
))
    ensures
        r.0 == (AppendPhase::AwaitCleanup { session, result }),
        r.1 matches UploadAction::DiscardStaged(b) && b@ == (chunk_key_of(id), 0u64),
{
    (AppendPhase::AwaitCleanup { session, result }, UploadAction::DiscardStaged(chunk(id)))
}

fn chunk(id: UploadId) -> (b: StagedBlob)
    ensures
        b@ == (chunk_key_of(id), 0u64),
{
    chunk_for(id).unwrap()
}

fn staged(id: UploadId) -> (b: StagedBlob)
    ensures
        b@ == (staged_key_of(id), 0u64),
{
    staged_for(id).unwrap()
}

/// What an append does once the session's offset is in sync at `synced`: the request must start
/// exactly there, and then the staged chunk is reset.
pub open spec fn append_synced(run: AppendRun, synced: UploadSessionView, r: (AppendPhase, UploadAction)) -> bool {
    if run.requested_offset != synced.offset {
        r.0 is Finished && r.1 == UploadAction::Finish(Err(CoreError::Conflict(Conflict::UploadOffsetMismatch)))
    } else {
        (r.0 matches AppendPhase::AwaitChunkReset { session } && session@ == synced) && (r.1 matches UploadAction::DiscardStaged(
            b,
        ) && b@ == (chunk_key_of(run.id), 0u64))
    }
}

fn synced_for_append(run: &AppendRun, session: UploadSession) -> (r: (AppendPhase, UploadAction))
    ensures
        append_synced(*run, session@, r),
        if run.requested_offset != session@.offset {
            r.0 is Finished && r.1 == UploadAction::Finish(
                Err(CoreError::Conflict(Conflict::UploadOffsetMismatch)),
            )
        } else {
            r.0 == AppendPhase::AwaitChunkReset { session } && (r.1 matches UploadAction::DiscardStaged(
                b,
            ) && b@ == (chunk_key_of(run.id), 0u64))
        },
{
    if run.requested_offset != session.offset() {
        return stop(CoreError::Conflict(Conflict::UploadOffsetMismatch));
    }
    (AppendPhase::AwaitChunkReset { session }, UploadAction::DiscardStaged(chunk(run.id)))
}

/// One step of appending a chunk at `requested_offset`.
///
/// The session must belong to the caller and still be uploading. Its offset is first synchronized
/// with the staged content; the request must start exactly there. The chunk is received into a
/// fresh staged chunk, limited to the remaining declared size, and must carry the expected
/// checksum; only then is it appended to the staged content and the offset moved by a guarded
/// write. The staged chunk is discarded in every case; an append error wins over a cleanup error.
pub fn append_step(run: &AppendRun, state: AppendPhase, event: UploadEvent) -> (r: (
    AppendPhase,
    UploadAction,
))
    requires
        append_wf(*run, state),
    ensures
        append_wf(*run, r.0),
        append_safe(*run, state, event, r.1),
        match (state, event) {
            (AppendPhase::Start, _) => r.0 is AwaitSession && r.1 == UploadAction::LoadSession(
                run.id,
            ),
            (AppendPhase::AwaitSession, UploadEvent::SessionLoaded(found)) => match found {
                None => r.0 is Finished && r.1 == UploadAction::Finish(Err(upload_not_found(run.id))),
                Some(s) => if s@.owner_id != run.owner_id {
                    r.0 is Finished && r.1 == UploadAction::Finish(Err(upload_not_found(run.id)))
                } else if s@.status != UploadStatus::Uploading {
                    r.0 is Finished && r.1 == UploadAction::Finish(
                        Err(CoreError::Conflict(Conflict::UploadNotAcceptingChunks)),
                    )
                } else {
                    r.0 is AwaitSync && (r.1 matches UploadAction::InspectStaged(k) && k@
                        == staged_key_of(run.id))
                },
            },
            (AppendPhase::AwaitSync { session }, UploadEvent::StagedSize(actual)) => match actual {
                None => r.0 is Finished && r.1 == UploadAction::Finish(
                    Err(CoreError::NotFound { subject: Subject::StagedUpload, id: session@.id.0 }),
                ),
                Some(a) => if a > session@.expected_size {
                    r.0 is Finished && r.1 == UploadAction::Finish(
                        Err(CoreError::Conflict(Conflict::StagedUploadExceedsDeclaredSize)),
                    )
                } else if a != session@.offset {
                    (r.0 matches AppendPhase::AwaitSyncWrite { session: s, actual: x } && s@ == session@
                        && x == a) && r.1 == UploadAction::UpdateOffset {
                        id: run.id,
                        from: session@.offset,
                        to: a,
                    }
                } else {
                    append_synced(*run, session@, r)
                },
            },
            (AppendPhase::AwaitSyncWrite { session, actual }, UploadEvent::Applied(applied)) => if applied {
                append_synced(*run, UploadSessionView { offset: actual, ..session@ }, r)
            } else {
                r.0 is Finished && r.1 == UploadAction::Finish(
                    Err(CoreError::Conflict(Conflict::UploadOffsetChangedConcurrently)),
                )
            },
            (AppendPhase::AwaitChunkReset { session }, UploadEvent::Completed) => r.0
                == (AppendPhase::AwaitChunkCreated { session }) && (r.1 matches UploadAction::CreateStaged(k)
                && k@ == chunk_key_of(run.id)),
            (AppendPhase::AwaitChunkCreated { session }, UploadEvent::Completed) => r.0
                == (AppendPhase::AwaitChunk { session }) && (r.1 matches UploadAction::AppendChunk { chunk, remaining }
                && chunk@ == chunk_key_of(run.id) && remaining == session@.expected_size - session@.offset),
            (AppendPhase::AwaitChunk { session }, UploadEvent::ChunkAppended(c)) => if c@
                != run.expected_chunk_checksum@ {
                r.0 == AppendPhase::AwaitCleanup {
                    session,
                    result: Err(CoreError::Conflict(Conflict::UploadChunkChecksumMismatch)),
                } && r.1 is DiscardStaged
            } else {
                r.0 == (AppendPhase::AwaitStagedAppend { session }) && (r.1 matches UploadAction::AppendFromChunk {
                    chunk,
                    staged,
                    offset,
                } && chunk@ == chunk_key_of(run.id) && staged@ == staged_key_of(run.id) && offset
                    == session@.offset)
            },
            (AppendPhase::AwaitStagedAppend { session }, UploadEvent::Written(w)) => r.0
                == (AppendPhase::AwaitOffsetWrite { session, written: w }) && r.1 == UploadAction::UpdateOffset {
                id: run.id,
                from: session@.offset,
                to: w,
            },
            (AppendPhase::AwaitStagedAppend { session }, UploadEvent::ChunkMissing) => r.0
                == AppendPhase::AwaitCleanup {
                session,
                result: Err(CoreError::NotFound { subject: Subject::StagedUploadChunk, id: run.id.0 }),
            } && r.1 is DiscardStaged,
            (AppendPhase::AwaitOffsetWrite { session, written }, UploadEvent::Applied(applied)) => r.0
                == AppendPhase::AwaitCleanup {
                session,
                result: if applied {
                    Ok(written)
                } else {
                    Err(CoreError::Conflict(Conflict::UploadOffsetChangedConcurrently))
                },
            } && r.1 is DiscardStaged,
            (AppendPhase::AwaitChunk { session }, UploadEvent::Failed(e))
            | (AppendPhase::AwaitStagedAppend { session }, UploadEvent::Failed(e))
            | (AppendPhase::AwaitOffsetWrite { session, .. }, UploadEvent::Failed(e)) => r.0
                == AppendPhase::AwaitCleanup { session, result: Err(e) } && r.1 is DiscardStaged,
            (AppendPhase::AwaitCleanup { session, result }, UploadEvent::Completed) => r.0 is Finished
                && match result {
                Err(e) => r.1 == UploadAction::Finish(Err(e)),
                Ok(n) => if n <= session@.expected_size {
                    r.1 matches UploadAction::Finish(Ok(UploadOutcome::Session(s))) && s@ == (
                    UploadSessionView { offset: n, ..session@ })
                } else {
                    r.1 == UploadAction::Finish(
                        Err(CoreError::Conflict(Conflict::UploadOffsetExceedsExpectedSize)),
                    )
                },
            },
            (AppendPhase::AwaitCleanup { result, .. }, UploadEvent::Failed(ce)) => r.0 is Finished
                && r.1 == UploadAction::Finish(
                match result {
                    Err(e) => Err(e),
                    Ok(_) => Err(ce),
                },
            ),
            (_, UploadEvent::Failed(e)) => r.0 is Finished && r.1 == UploadAction::Finish(Err(e)),
            (AppendPhase::AwaitChunk { session }, _)
            | (AppendPhase::AwaitStagedAppend { session }, _)
            | (AppendPhase::AwaitOffsetWrite { session, .. }, _) => r.0 == AppendPhase::AwaitCleanup {
                session,
                result: Err(unexpected_upload_event()),
            } && r.1 is DiscardStaged,
            _ => r.0 is Finished && r.1 == UploadAction::Finish(Err(unexpected_upload_event())),
        },
{
    match state {
        AppendPhase::Start => (AppendPhase::AwaitSession, UploadAction::LoadSession(run.id)),
        AppendPhase::AwaitSession => match event {
            UploadEvent::SessionLoaded(found) => match owned_session(run.owner_id, run.id, found) {
                Err(e) => stop(e),
                Ok(session) => {
                    if session.status() != UploadStatus::Uploading {
                        return stop(CoreError::Conflict(Conflict::UploadNotAcceptingChunks));
                    }
                    let key = staged(run.id).key().clone();
                    (AppendPhase::AwaitSync { session }, UploadAction::InspectStaged(key))
                },
            },
            UploadEvent::Failed(e) => stop(e),
            _ => stop(unexpected()),
        },
        AppendPhase::AwaitSync { session } => match event {
            UploadEvent::StagedSize(actual) => match offset_sync(session, actual) {
                OffsetSync::Fail(e) => stop(e),
                OffsetSync::Synced(session) => synced_for_append(run, session),
                OffsetSync::Update { session, actual } => {
                    let from = session.offset();
                    (
                        AppendPhase::AwaitSyncWrite { session, actual },
                        UploadAction::UpdateOffset { id: run.id, from, to: actual },
                    )
                },
            },
            UploadEvent::Failed(e) => stop(e),
            _ => stop(unexpected()),
        },
        AppendPhase::AwaitSyncWrite { session, actual } => match event {
            UploadEvent::Applied(applied) => match offset_updated(session, actual, applied) {
                Err(e) => stop(e),
                Ok(session) => synced_for_append(run, session),
            },
            UploadEvent::Failed(e) => stop(e),
            _ => stop(unexpected()),
        },
        AppendPhase::AwaitChunkReset { session } => match event {
            UploadEvent::Completed => {
                let key = chunk(run.id).key().clone();
                (AppendPhase::AwaitChunkCreated { session }, UploadAction::CreateStaged(key))
            },
            UploadEvent::Failed(e) => stop(e),
            _ => stop(unexpected()),
        },
        AppendPhase::AwaitChunkCreated { session } => match event {
            UploadEvent::Completed => {
                proof {
                    use_type_invariant(&session);
                }
                let remaining = session.expected_size() - session.offset();
                let key = chunk(run.id).key().clone();
                (
                    AppendPhase::AwaitChunk { session },
                    UploadAction::AppendChunk { chunk: key, remaining },
                )
            },
            UploadEvent::Failed(e) => stop(e),
            _ => stop(unexpected()),
        },
        AppendPhase::AwaitChunk { session } => match event {
            UploadEvent::ChunkAppended(actual) => {
                if !actual.same_as(&run.expected_chunk_checksum) {
                    return cleanup(
                        run.id,
                        session,
                        Err(CoreError::Conflict(Conflict::UploadChunkChecksumMismatch)),
                    );
                }
                let offset = session.offset();
                let chunk_key = chunk(run.id).key().clone();
                let staged_key = staged(run.id).key().clone();
                (
                    AppendPhase::AwaitStagedAppend { session },
                    UploadAction::AppendFromChunk { chunk: chunk_key, staged: staged_key, offset },
                )
            },
            UploadEvent::Failed(e) => cleanup(run.id, session, Err(e)),
            _ => cleanup(run.id, session, Err(unexpected())),
        },
        AppendPhase::AwaitStagedAppend { session } => match event {
            UploadEvent::Written(written) => {
                let from = session.offset();
                (
                    AppendPhase::AwaitOffsetWrite { session, written },
                    UploadAction::UpdateOffset { id: run.id, from, to: written },
                )
            },
            UploadEvent::ChunkMissing => cleanup(
                run.id,
                session,
                Err(CoreError::NotFound { subject: Subject::StagedUploadChunk, id: run.id.0 }),
            ),
            UploadEvent::Failed(e) => cleanup(run.id, session, Err(e)),
            _ => cleanup(run.id, session, Err(unexpected())),
        },
        AppendPhase::AwaitOffsetWrite { session, written } => match event {
            UploadEvent::Applied(applied) => {
                if applied {
                    cleanup(run.id, session, Ok(written))
                } else {
                    cleanup(
                        run.id,
                        session,
                        Err(CoreError::Conflict(Conflict::UploadOffsetChangedConcurrently)),
                    )
                }
            },
            UploadEvent::Failed(e) => cleanup(run.id, session, Err(e)),
            _ => cleanup(run.id, session, Err(unexpected())),
        },
        AppendPhase::AwaitCleanup { session, result } => match event {
            UploadEvent::Completed => match result {
                Err(e) => stop(e),
                Ok(n) => {
                    let mut session = session;
                    match session.synchronize_offset(n) {
                        Ok(_) => (
                            AppendPhase::Finished,
                            UploadAction::Finish(Ok(UploadOutcome::Session(session))),
                        ),
                        Err(e) => stop(e),
                    }
                },
            },
            UploadEvent::Failed(ce) => match result {
                Err(e) => stop(e),
                Ok(_) => stop(ce),
            },
            _ => stop(unexpected()),
        },
        AppendPhase::Finished => match event {
            UploadEvent::Failed(e) => stop(e),
            _ => stop(unexpected()),
        },
    }
}

/// The operations on an existing session.
#[derive(Debug, Clone, Copy, PartialEq, Eq, Structural)]
pub enum SessionCommand {
    /// Report the session, synchronizing the offset of one that is uploading.
    Status,
    /// Stop accepting chunks of a complete upload.
    RequestFinalization,
    /// Discard the staged content and remove the session.
    Abort,
}

/// The inputs of a session operation.
#[derive(Debug)]
pub struct SessionRun {
    pub owner_id: UserId,
    pub id: UploadId,
    pub command: SessionCommand,
}

/// Phases of a session operation.
#[derive(Debug)]
pub enum SessionPhase {
    Start,
    AwaitSession,
    AwaitSync { session: UploadSession },
    AwaitSyncWrite { session: UploadSession, actual: u64 },
    AwaitChunkDiscard { session: UploadSession },
    AwaitChunkDropped,
    AwaitStagedDropped,
    AwaitRemoval,
    AwaitMark { session: UploadSession },
    Finished,
}

/// Pending actual sizes fit the declared size.
pub open spec fn session_wf(state: SessionPhase) -> bool {
    match state {
        SessionPhase::AwaitSyncWrite { session, actual } => actual <= session@.expected_size,
        SessionPhase::AwaitMark { session } => session@.offset == session@.expected_size,
        SessionPhase::AwaitChunkDiscard { session } => session@.offset == session@.expected_size,
        _ => true,
    }
}

/// Safety of session operations: a session is marked finalizing only after its offset was
/// synchronized with the staged content and found complete, and after its chunk was discarded;
/// the staged content itself is discarded only when aborting.
pub open spec fn session_safe(run: SessionRun, state: SessionPhase, a: UploadAction) -> bool {
    match a {
        UploadAction::MarkFinalizing(id) => id == run.id && run.command
            == SessionCommand::RequestFinalization && (state matches SessionPhase::AwaitChunkDiscard {
            session,
        } && session@.offset == session@.expected_size),
        UploadAction::DiscardStaged(b) => b@.0 == chunk_key_of(run.id) || (b@.0 == staged_key_of(
            run.id,
        ) && run.command == SessionCommand::Abort),
        UploadAction::RemoveSession(id) => id == run.id && run.command == SessionCommand::Abort,
        UploadAction::UpdateOffset { id, .. } => id == run.id,
        UploadAction::LoadSession(id) => id == run.id,
        UploadAction::InspectStaged(k) => k@ == staged_key_of(run.id),
        UploadAction::Finish(_) => true,
        _ => false,
    }
}

fn end(e: CoreError) -> (r: (SessionPhase, UploadAction))
    ensures
        r.0 is Finished && r.1 == UploadAction::Finish(Err(e)),
{
    (SessionPhase::Finished, UploadAction::Finish(Err(e)))
}

/// What a session operation does once the session's offset agrees with its staged content:
/// finalization needs every declared byte and then discards the chunk; a status request answers
/// the synchronized session.
pub open spec fn session_synced(run: SessionRun, synced: UploadSessionView, r: (SessionPhase, UploadAction)) -> bool {
    match run.command {
        SessionCommand::RequestFinalization => if synced.offset != synced.expected_size {
            r.0 is Finished && r.1 == UploadAction::Finish(Err(CoreError::Conflict(Conflict::UploadIncomplete)))
        } else {
            (r.0 matches SessionPhase::AwaitChunkDiscard { session } && session@ == synced) && (
            r.1 matches UploadAction::DiscardStaged(b) && b@.0 == chunk_key_of(run.id))
        },
        _ => r.0 is Finished && (r.1 matches UploadAction::Finish(Ok(UploadOutcome::Session(t)))
            && t@ == synced),
    }
}

fn synced_session(run: &SessionRun, session: UploadSession) -> (r: (SessionPhase, UploadAction))
    ensures
        session_wf(r.0),
        session_safe(*run, SessionPhase::Finished, r.1) || (r.1 is DiscardStaged),
        session_synced(*run, session@, r),
        match run.command {
            SessionCommand::RequestFinalization => if session@.offset != session@.expected_size {
                r.0 is Finished && r.1 == UploadAction::Finish(
                    Err(CoreError::Conflict(Conflict::UploadIncomplete)),
                )
            } else {
                r.0 == SessionPhase::AwaitChunkDiscard { session } && (r.1 matches UploadAction::DiscardStaged(
                    b,
                ) && b@.0 == chunk_key_of(run.id))
            },
            _ => r.0 is Finished && r.1 == UploadAction::Finish(
                Ok(UploadOutcome::Session(session)),
            ),
        },
{
    match run.command {
        SessionCommand::RequestFinalization => {
            if session.offset() != session.expected_size() {
                return end(CoreError::Conflict(Conflict::UploadIncomplete));
            }
            (SessionPhase::AwaitChunkDiscard { session }, UploadAction::DiscardStaged(chunk(run.id)))
        },
        _ => (SessionPhase::Finished, UploadAction::Finish(Ok(UploadOutcome::Session(session)))),
    }
}

/// One step of a session operation.
///
/// The session must belong to the caller. Aborting discards the chunk and the staged content and
/// removes the session. Reporting the status of an uploading session, and requesting
/// finalization of one that is not already finalizing or completed (which is answered with
/// `false`), first synchronize its offset with the staged content. Finalization needs every
/// declared byte; the chunk is discarded and the session is marked finalizing by a guarded
/// write (`true`).
pub fn session_step(run: &SessionRun, state: SessionPhase, event: UploadEvent) -> (r: (
    SessionPhase,
    UploadAction,
))
    requires
        session_wf(state),
    ensures
        session_wf(r.0),
        session_safe(*run, state, r.1),
        match (state, event) {
            (SessionPhase::Start, _) => r.0 is AwaitSession && r.1 == UploadAction::LoadSession(
                run.id,
            ),
            (SessionPhase::AwaitSession, UploadEvent::SessionLoaded(found)) => match found {
                None => r.0 is Finished && r.1 == UploadAction::Finish(Err(upload_not_found(run.id))),
                Some(s) => if s@.owner_id != run.owner_id {
                    r.0 is Finished && r.1 == UploadAction::Finish(Err(upload_not_found(run.id)))
                } else {
                    match run.command {
                        SessionCommand::Abort => r.0 is AwaitChunkDropped && (r.1 matches UploadAction::DiscardStaged(
                            b,
                        ) && b@.0 == chunk_key_of(run.id)),
                        SessionCommand::Status => if s@.status != UploadStatus::Uploading {
                            r.0 is Finished && (r.1 matches UploadAction::Finish(
                                Ok(UploadOutcome::Session(t)),
                            ) && t@ == s@)
                        } else {
                            r.0 is AwaitSync && r.1 is InspectStaged
                        },
                        SessionCommand::RequestFinalization => if s@.status
                            == UploadStatus::Finalizing || s@.status == UploadStatus::Completed {
                            r.0 is Finished && (r.1 matches UploadAction::Finish(
                                Ok(UploadOutcome::Finalization(t, false)),
                            ) && t@ == s@)
                        } else {
                            r.0 is AwaitSync && r.1 is InspectStaged
                        },
                    }
                },
            },
            (SessionPhase::AwaitMark { session }, UploadEvent::Applied(applied)) => r.0 is Finished
                && if !applied {
                r.1 == UploadAction::Finish(
                    Err(CoreError::Conflict(Conflict::UploadStatusChangedConcurrently)),
                )
            } else if session@.status != UploadStatus::Uploading {
                r.1 == UploadAction::Finish(Err(CoreError::Conflict(Conflict::UploadCannotBeFinalized)))
            } else {
                r.1 matches UploadAction::Finish(Ok(UploadOutcome::Finalization(t, true))) && t@ == (
                UploadSessionView { status: UploadStatus::Finalizing, ..session@ })
            },
            (SessionPhase::AwaitChunkDropped, UploadEvent::Completed) => if run.command
                == SessionCommand::Abort {
                r.0 is AwaitStagedDropped && (r.1 matches UploadAction::DiscardStaged(b) && b@.0
                    == staged_key_of(run.id))
            } else {
                r.0 is Finished && r.1 == UploadAction::Finish(Err(unexpected_upload_event()))
            },
            (SessionPhase::AwaitStagedDropped, UploadEvent::Completed) => if run.command
                == SessionCommand::Abort {
                r.0 is AwaitRemoval && r.1 == UploadAction::RemoveSession(run.id)
            } else {
                r.0 is Finished && r.1 == UploadAction::Finish(Err(unexpected_upload_event()))
            },
            (SessionPhase::AwaitRemoval, UploadEvent::Completed) => r.0 is Finished && r.1
                == UploadAction::Finish(Ok(UploadOutcome::Aborted)),
            (SessionPhase::AwaitSync { session }, UploadEvent::StagedSize(actual)) => match actual {
                None => r.0 is Finished && r.1 == UploadAction::Finish(
                    Err(CoreError::NotFound { subject: Subject::StagedUpload, id: session@.id.0 }),
                ),
                Some(a) => if a > session@.expected_size {
                    r.0 is Finished && r.1 == UploadAction::Finish(
                        Err(CoreError::Conflict(Conflict::StagedUploadExceedsDeclaredSize)),
                    )
                } else if a != session@.offset {
                    (r.0 matches SessionPhase::AwaitSyncWrite { session: s, actual: x } && s@ == session@
                        && x == a) && r.1 == UploadAction::UpdateOffset {
                        id: run.id,
                        from: session@.offset,
                        to: a,
                    }
                } else {
                    session_synced(*run, session@, r)
                },
            },
            (SessionPhase::AwaitSyncWrite { session, actual }, UploadEvent::Applied(applied)) => if applied {
                session_synced(*run, UploadSessionView { offset: actual, ..session@ }, r)
            } else {
                r.0 is Finished && r.1 == UploadAction::Finish(
                    Err(CoreError::Conflict(Conflict::UploadOffsetChangedConcurrently)),
                )
            },
            (SessionPhase::AwaitChunkDiscard { session }, UploadEvent::Completed) => if run.command
                == SessionCommand::RequestFinalization {
                (r.0 matches SessionPhase::AwaitMark { session: s } && s@ == session@) && r.1
                    == UploadAction::MarkFinalizing(run.id)
            } else {
                r.0 is Finished && r.1 == UploadAction::Finish(Err(unexpected_upload_event()))
            },
            (_, UploadEvent::Failed(e)) => r.0 is Finished && r.1 == UploadAction::Finish(Err(e)),
            _ => r.0 is Finished && r.1 == UploadAction::Finish(Err(unexpected_upload_event())),
        },
{
    match state {
        SessionPhase::Start => (SessionPhase::AwaitSession, UploadAction::LoadSession(run.id)),
        SessionPhase::AwaitSession => match event {
            UploadEvent::SessionLoaded(found) => match owned_session(run.owner_id, run.id, found) {
                Err(e) => end(e),
                Ok(session) => match run.command {
                    SessionCommand::Abort => (
                        SessionPhase::AwaitChunkDropped,
                        UploadAction::DiscardStaged(chunk(run.id)),
                    ),
                    SessionCommand::Status => {
                        if session.status() != UploadStatus::Uploading {
                            return (
                                SessionPhase::Finished,
                                UploadAction::Finish(Ok(UploadOutcome::Session(session))),
                            );
                        }
                        let key = staged(run.id).key().clone();
                        (SessionPhase::AwaitSync { session }, UploadAction::InspectStaged(key))
                    },
                    SessionCommand::RequestFinalization => {
                        let status = session.status();
                        if status == UploadStatus::Finalizing || status == UploadStatus::Completed {
                            return (
                                SessionPhase::Finished,
                                UploadAction::Finish(Ok(UploadOutcome::Finalization(session, false))),
                            );
                        }
                        let key = staged(run.id).key().clone();
                        (SessionPhase::AwaitSync { session }, UploadAction::InspectStaged(key))
                    },
                },
            },
            UploadEvent::Failed(e) => end(e),
            _ => end(unexpected()),
        },
        SessionPhase::AwaitSync { session } => match event {
            UploadEvent::StagedSize(actual) => match offset_sync(session, actual) {
                OffsetSync::Fail(e) => end(e),
                OffsetSync::Synced(session) => synced_session(run, session),
                OffsetSync::Update { session, actual } => {
                    let from = session.offset();
                    (
                        SessionPhase::AwaitSyncWrite { session, actual },
                        UploadAction::UpdateOffset { id: run.id, from, to: actual },
                    )
                },
            },
            UploadEvent::Failed(e) => end(e),
            _ => end(unexpected()),
        },
        SessionPhase::AwaitSyncWrite { session, actual } => match event {
            UploadEvent::Applied(applied) => match offset_updated(session, actual, applied) {
                Err(e) => end(e),
                Ok(session) => synced_session(run, session),
            },
            UploadEvent::Failed(e) => end(e),
            _ => end(unexpected()),
        },
        SessionPhase::AwaitChunkDiscard { session } => match event {
            UploadEvent::Completed => {
                if run.command != SessionCommand::RequestFinalization {
                    return end(unexpected());
                }
                (SessionPhase::AwaitMark { session }, UploadAction::MarkFinalizing(run.id))
            },
            UploadEvent::Failed(e) => end(e),
            _ => end(unexpected()),
        },
        SessionPhase::AwaitChunkDropped => match event {
            UploadEvent::Completed => {
                if run.command != SessionCommand::Abort {
                    return end(unexpected());
                }
                (SessionPhase::AwaitStagedDropped, UploadAction::DiscardStaged(staged(run.id)))
            },
            UploadEvent::Failed(e) => end(e),
            _ => end(unexpected()),
        },
        SessionPhase::AwaitStagedDropped => match event {
            UploadEvent::Completed => {
                if run.command != SessionCommand::Abort {
                    return end(unexpected());
                }
                (SessionPhase::AwaitRemoval, UploadAction::RemoveSession(run.id))
            },
            UploadEvent::Failed(e) => end(e),
            _ => end(unexpected()),
        },
        SessionPhase::AwaitRemoval => match event {
            UploadEvent::Completed => (SessionPhase::Finished, UploadAction::Finish(Ok(UploadOutcome::Aborted))),
            UploadEvent::Failed(e) => end(e),
            _ => end(unexpected()),
        },
        SessionPhase::AwaitMark { session } => match event {
            UploadEvent::Applied(applied) => {
                if !applied {
                    return end(CoreError::Conflict(Conflict::UploadStatusChangedConcurrently));
                }
                let mut session = session;
                match session.mark_finalizing() {
                    Ok(_) => (
                        SessionPhase::Finished,
                        UploadAction::Finish(Ok(UploadOutcome::Finalization(session, true))),
                    ),
                    Err(e) => end(e),
                }
            },
            UploadEvent::Failed(e) => end(e),
            _ => end(unexpected()),
        },
        SessionPhase::Finished => match event {
            UploadEvent::Failed(e) => end(e),
            _ => end(unexpected()),
        },
    }
}

/// Phases of finalizing an upload by its identity.
#[derive(Debug)]
pub enum FinalizeEntry {
    Start,
    AwaitSession,
    AwaitCompletedResource { resource_id: ResourceId },
    AwaitFinalization,
    Finished,
}

fn entry_end(e: CoreError) -> (r: (FinalizeEntry, UploadAction))
    ensures
        r.0 is Finished && r.1 == UploadAction::Finish(Err(e)),
{
    (FinalizeEntry::Finished, UploadAction::Finish(Err(e)))
}

/// One step of finalizing the upload `id`: a completed upload answers with its Resource; only a
/// finalizing upload runs the finalization workflow, whose failure is recorded on the session.
pub fn finalize_entry_step(id: UploadId, state: FinalizeEntry, event: UploadEvent) -> (r: (
    FinalizeEntry,
    UploadAction,
))
    ensures
        match (state, event) {
            (FinalizeEntry::Start, _) => r.0 is AwaitSession && r.1 == UploadAction::LoadSession(id),
            (FinalizeEntry::AwaitSession, UploadEvent::SessionLoaded(found)) => match found {
                None => r.0 is Finished && r.1 == UploadAction::Finish(Err(upload_not_found(id))),
                Some(s) => if s@.status == UploadStatus::Completed {
                    r.0 == FinalizeEntry::AwaitCompletedResource { resource_id: s@.resource_id }
                        && r.1 == UploadAction::LoadResource(s@.resource_id)
                } else if s@.status != UploadStatus::Finalizing {
                    r.0 is Finished && r.1 == UploadAction::Finish(
                        Err(CoreError::Conflict(Conflict::UploadCannotBeFinalized)),
                    )
                } else {
                    r.0 is AwaitFinalization && (r.1 matches UploadAction::RunFinalization(t) && t@
                        == s@)
                },
            },
            (FinalizeEntry::AwaitCompletedResource { resource_id }, UploadEvent::ResourceLoaded(found)) => r.0 is Finished
                && match found {
                None => r.1 == UploadAction::Finish(
                    Err(CoreError::NotFound { subject: Subject::Resource, id: resource_id.0 }),
                ),
                Some(res) => r.1 matches UploadAction::Finish(Ok(UploadOutcome::Resource(x))) && x@
                    == res@,
            },
            (FinalizeEntry::AwaitFinalization, UploadEvent::Finalized(result)) => r.0 is Finished
                && match result {
                Ok(res) => r.1 matches UploadAction::Finish(Ok(UploadOutcome::Resource(x))) && x@
                    == res@,
                Err(e) => r.1 == UploadAction::MarkFailed { id, error: e },
            },
            (_, UploadEvent::Failed(e)) => r.0 is Finished && r.1 == UploadAction::Finish(Err(e)),
            _ => r.0 is Finished && r.1 == UploadAction::Finish(Err(unexpected_upload_event())),
        },
{
    match state {
        FinalizeEntry::Start => (FinalizeEntry::AwaitSession, UploadAction::LoadSession(id)),
        FinalizeEntry::AwaitSession => match event {
            UploadEvent::SessionLoaded(found) => match found {
                None => entry_end(CoreError::NotFound { subject: Subject::Upload, id: id.0 }),
                Some(session) => {
                    let status = session.status();
                    if status == UploadStatus::Completed {
                        let resource_id = session.resource_id();
                        (
                            FinalizeEntry::AwaitCompletedResource { resource_id },
                            UploadAction::LoadResource(resource_id),
                        )
                    } else if status != UploadStatus::Finalizing {
                        entry_end(CoreError::Conflict(Conflict::UploadCannotBeFinalized))
                    } else {
                        (FinalizeEntry::AwaitFinalization, UploadAction::RunFinalization(session))
                    }
                },
            },
            UploadEvent::Failed(e) => entry_end(e),
            _ => entry_end(unexpected()),
        },
        FinalizeEntry::AwaitCompletedResource { resource_id } => match event {
            UploadEvent::ResourceLoaded(found) => match found {
                None => entry_end(CoreError::NotFound { subject: Subject::Resource, id: resource_id.0 }),
                Some(res) => (
                    FinalizeEntry::Finished,
                    UploadAction::Finish(Ok(UploadOutcome::Resource(res))),
                ),
            },
            UploadEvent::Failed(e) => entry_end(e),
            _ => entry_end(unexpected()),
        },
        FinalizeEntry::AwaitFinalization => match event {
            UploadEvent::Finalized(result) => match result {
                Ok(res) => (
                    FinalizeEntry::Finished,
                    UploadAction::Finish(Ok(UploadOutcome::Resource(res))),
                ),
                Err(error) => (FinalizeEntry::Finished, UploadAction::MarkFailed { id, error }),
            },
            UploadEvent::Failed(e) => entry_end(e),
            _ => entry_end(unexpected()),
        },
        FinalizeEntry::Finished => match event {
            UploadEvent::Failed(e) => entry_end(e),
            _ => entry_end(unexpected()),
        },
    }
}

/// Phases of turning the staged content of a finalizing upload into a new Resource.
#[derive(Debug)]
pub enum Finalization {
    Start,
    AwaitExisting,
    AwaitChecksum,
    AwaitChecksumSaved { checksum: Checksum },
    AwaitDirectory { checksum: Checksum },
    AwaitOccupant { checksum: Checksum, resource: Resource, key: StorageKey },
    AwaitPublish { checksum: Checksum, resource: Resource, key: StorageKey },
    AwaitTarget { checksum: Checksum, resource: Resource, key: StorageKey, error: CoreError },
    AwaitTargetChecksum { checksum: Checksum, resource: Resource, key: StorageKey, error: CoreError },
    AwaitStored { checksum: Checksum, resource: Resource, key: StorageKey, published: bool },
    AwaitInsert { resource: Resource, key: StorageKey, published: bool },
    AwaitCompletion { resource: Resource, key: StorageKey, published: bool },
    AwaitRowRollback { key: StorageKey, published: bool, error: CoreError },
    AwaitBlobCleanup { error: CoreError },
    AwaitCompletedMark { resource: Resource },
    AwaitDiscard { resource: Resource },
    Finished,
}

/// Every checksum a finalization carries is the declared one, and the Resource it builds is the
/// reserved one.
pub open spec fn finalization_wf(session: UploadSession, state: Finalization) -> bool {
    match state {
        Finalization::AwaitDirectory { checksum } => checksum@ == session@.expected_checksum,
        Finalization::AwaitOccupant { checksum, resource, .. } => checksum@
            == session@.expected_checksum && resource@.id == session@.resource_id
            && resource@.content is None && resource@.revision == 1,
        Finalization::AwaitPublish { checksum, resource, .. } => checksum@
            == session@.expected_checksum && resource@.id == session@.resource_id
            && resource@.content is None && resource@.revision == 1,
        Finalization::AwaitTarget { checksum, resource, .. } => checksum@
            == session@.expected_checksum && resource@.id == session@.resource_id
            && resource@.content is None && resource@.revision == 1,
        Finalization::AwaitTargetChecksum { checksum, resource, .. } => checksum@
            == session@.expected_checksum && resource@.id == session@.resource_id
            && resource@.content is None && resource@.revision == 1,
        Finalization::AwaitStored { checksum, resource, .. } => checksum@
            == session@.expected_checksum && resource@.id == session@.resource_id
            && resource@.content is None && resource@.revision == 1,
        Finalization::AwaitInsert { resource, .. } => resource@.id == session@.resource_id,
        Finalization::AwaitCompletion { resource, .. } => resource@.id == session@.resource_id,
        _ => true,
    }
}

/// Safety of finalization: the staged content is published only at the Resource's visible key,
/// after its checksum matched the declared one and the name was found free; the Resource is
/// inserted only with verified content of exactly the uploaded size and the declared checksum.
pub open spec fn finalization_safe(
    session: UploadSession,
    state: Finalization,
    event: UploadEvent,
    a: UploadAction,
) -> bool {
    match a {
        UploadAction::PublishStaged { staged, to } => staged@.0 == staged_key_of(session@.id) && (state matches Finalization::AwaitOccupant {
            checksum,
            key,
            ..
        } && checksum@ == session@.expected_checksum && to@ == key@) && event
            == UploadEvent::ResourceFound(None),
        UploadAction::InsertResource(r) => r@.id == session@.resource_id && (r@.content matches Some(
            c,
        ) && c.size == session@.offset && c.checksum == Some(session@.expected_checksum)
            && c.status == crate::domain::resource::ContentVerificationStatus::Verified),
        UploadAction::DeleteBlob(k) => state is AwaitStored || state is AwaitInsert
            || state is AwaitCompletion || state is AwaitRowRollback,
        UploadAction::DeleteIfRevision { id, .. } => id == session@.resource_id,
        UploadAction::DiscardStaged(b) => b@.0 == staged_key_of(session@.id),
        _ => true,
    }
}

fn fin_end(e: CoreError) -> (r: (Finalization, UploadAction))
    ensures
        r.0 is Finished && r.1 == UploadAction::Finish(Err(e)),
{
    (Finalization::Finished, UploadAction::Finish(Err(e)))
}

/// A failure after the visible key may hold our Blob: delete it while the session is finalizing
/// or when this run published it.
/// A finalization failing with `error` once the content may be at the visible key: the
/// published Blob is deleted again before the error is reported.
pub open spec fn fin_fail_result(
    session: UploadSessionView,
    key: Seq<char>,
    published: bool,
    error: CoreError,
    r: (Finalization, UploadAction),
) -> bool {
    if published || session.status == UploadStatus::Finalizing {
        r.0 == (Finalization::AwaitBlobCleanup { error }) && (r.1 matches UploadAction::DeleteBlob(k)
            && k@ == key)
    } else {
        r.0 is Finished && r.1 == UploadAction::Finish(Err(error))
    }
}

fn fin_fail(session: &UploadSession, key: StorageKey, published: bool, error: CoreError) -> (r: (
    Finalization,
    UploadAction,
))
    ensures
        fin_fail_result(session@, key@, published, error, r),
{
    if published || session.status() == UploadStatus::Finalizing {
        (Finalization::AwaitBlobCleanup { error }, UploadAction::DeleteBlob(key))
    } else {
        fin_end(error)
    }
}

fn checksum_ready(session: &UploadSession, checksum: Checksum) -> (r: (Finalization, UploadAction))
    ensures
        finalization_wf(*session, r.0),
        if checksum@ != session@.expected_checksum {
            r.0 is Finished && r.1 == UploadAction::Finish(
                Err(CoreError::Conflict(Conflict::UploadChecksumMismatch)),
            )
        } else {
            r.0 is AwaitDirectory && r.1 == UploadAction::LocateDirectory(session@.directory_id)
        },
{
    if !checksum.same_as(session.expected_checksum()) {
        return fin_end(CoreError::Conflict(Conflict::UploadChecksumMismatch));
    }
    (Finalization::AwaitDirectory { checksum }, UploadAction::LocateDirectory(session.directory_id()))
}

/// One step of finalizing a session.
///
/// A Resource that already exists under the reserved identity means an earlier attempt
/// committed: the session is marked completed. Otherwise the staged content's checksum (computed
/// once and persisted) must be the declared one, and the name in the Directory must be free, or
/// held by the reserved Resource itself. The staged content is published at the visible key; a
/// publication conflict is accepted only when the Blob already there has the uploaded size and
/// checksum. The stored Blob must still have the uploaded size; the Resource is inserted with
/// verified content and the session marked completed, undoing the insert if that fails. On a
/// failure after publication the visible Blob is deleted.
pub fn finalization_step(session: &UploadSession, state: Finalization, event: UploadEvent) -> (r: (
    Finalization,
    UploadAction,
))
    requires
        finalization_wf(*session, state),
    ensures
        finalization_wf(*session, r.0),
        finalization_safe(*session, state, event, r.1),
        match (state, event) {
            (Finalization::Start, _) => r.0 is AwaitExisting && r.1 == UploadAction::LoadResource(
                session@.resource_id,
            ),
            (Finalization::AwaitExisting, UploadEvent::ResourceLoaded(Some(res))) => r.0 is AwaitCompletedMark
                && r.1 == UploadAction::MarkCompleted(session@.id),
            (Finalization::AwaitExisting, UploadEvent::ResourceLoaded(None)) => match session@.actual_checksum {
                Some(c) => if c != session@.expected_checksum {
                    r.0 is Finished && r.1 == UploadAction::Finish(
                        Err(CoreError::Conflict(Conflict::UploadChecksumMismatch)),
                    )
                } else {
                    r.0 is AwaitDirectory && r.1 == UploadAction::LocateDirectory(
                        session@.directory_id,
                    )
                },
                None => r.0 is AwaitChecksum && (r.1 matches UploadAction::ComputeChecksum(k) && k@
                    == staged_key_of(session@.id)),
            },
            (Finalization::AwaitChecksum, UploadEvent::ChecksumComputed(None)) => r.0 is Finished
                && r.1 == UploadAction::Finish(
                Err(CoreError::NotFound { subject: Subject::StagedUpload, id: session@.id.0 }),
            ),
            (Finalization::AwaitChecksumSaved { checksum }, UploadEvent::Completed) => if checksum@
                != session@.expected_checksum {
                r.0 is Finished && r.1 == UploadAction::Finish(
                    Err(CoreError::Conflict(Conflict::UploadChecksumMismatch)),
                )
            } else {
                r.0 is AwaitDirectory && r.1 == UploadAction::LocateDirectory(session@.directory_id)
            },
            (Finalization::AwaitChecksum, UploadEvent::ChecksumComputed(Some(c))) => (r.0 matches Finalization::AwaitChecksumSaved {
                checksum,
            } && checksum@ == c@) && (r.1 matches UploadAction::SaveActualChecksum { id, checksum: saved }
                && id == session@.id && saved@ == c@),
            (Finalization::AwaitDirectory { .. }, UploadEvent::DirectoryLocated(d)) => if crate::domain::path::valid_path(
                resource_key_text(d@.1, session@.name),
            ) {
                (r.0 matches Finalization::AwaitOccupant { resource, key, .. } && resource@ == (
                crate::domain::resource::ResourceView {
                    id: session@.resource_id,
                    name: session@.name,
                    directory_id: d@.0,
                    kind: session@.kind,
                    revision: 1,
                    content: None,
                }) && key@ == resource_key_text(d@.1, session@.name)) && (r.1 matches UploadAction::FindByDirectoryAndName {
                    directory_id,
                    name,
                } && directory_id == d@.0 && name@ == session@.name)
            } else {
                r.0 is Finished && r.1 == UploadAction::Finish(Err(CoreError::InvalidStorageKey))
            },
            (Finalization::AwaitOccupant { key, .. }, UploadEvent::ResourceFound(None)) => r.0 is AwaitPublish
                && (r.1 matches UploadAction::PublishStaged { staged, to } && staged@.0 == staged_key_of(
                session@.id,
            ) && to@ == key@),
            (Finalization::AwaitPublish { key, .. }, UploadEvent::Completed) => (r.0 matches Finalization::AwaitStored {
                key: k,
                published,
                ..
            } && k@ == key@ && published) && (r.1 matches UploadAction::Inspect(p) && p@ == key@),
            (Finalization::AwaitInsert { resource, key, published }, UploadEvent::Completed) => r.0
                == (Finalization::AwaitCompletion { resource, key, published }) && r.1
                == UploadAction::MarkCompleted(session@.id),
            (Finalization::AwaitCompletion { resource, .. }, UploadEvent::Completed) => r.0
                == (Finalization::AwaitDiscard { resource }) && (r.1 matches UploadAction::DiscardStaged(b)
                && b@.0 == staged_key_of(session@.id)),
            (Finalization::AwaitCompletedMark { resource }, UploadEvent::Completed) => r.0
                == (Finalization::AwaitDiscard { resource }) && (r.1 matches UploadAction::DiscardStaged(b)
                && b@.0 == staged_key_of(session@.id)),
            (Finalization::AwaitOccupant { .. }, UploadEvent::ResourceFound(Some(e))) => if e@.0.id
                == session@.resource_id {
                r.0 is AwaitCompletedMark && r.1 == UploadAction::MarkCompleted(session@.id)
            } else {
                r.0 is Finished && r.1 == UploadAction::Finish(
                    Err(CoreError::Conflict(Conflict::ResourcePathOccupied)),
                )
            },
            (Finalization::AwaitStored { key, published, resource, .. }, UploadEvent::Stored(stored)) => match stored {
                None => if published || session@.status == UploadStatus::Finalizing {
                    r.0 == (Finalization::AwaitBlobCleanup {
                        error: CoreError::Conflict(Conflict::BlobDisappearedDuringFinalization),
                    }) && r.1 is DeleteBlob
                } else {
                    r.0 is Finished && r.1 == UploadAction::Finish(
                        Err(CoreError::Conflict(Conflict::BlobDisappearedDuringFinalization)),
                    )
                },
                Some(b) => if b.size != session@.offset {
                    if published || session@.status == UploadStatus::Finalizing {
                        r.0 == (Finalization::AwaitBlobCleanup {
                            error: CoreError::Conflict(Conflict::BlobChangedDuringFinalization),
                        }) && r.1 is DeleteBlob
                    } else {
                        r.0 is Finished && r.1 == UploadAction::Finish(
                            Err(CoreError::Conflict(Conflict::BlobChangedDuringFinalization)),
                        )
                    }
                } else {
                    (r.0 matches Finalization::AwaitInsert { resource: inserted, key: k, published: p } && k@
                        == key@ && p == published && inserted@ == (crate::domain::resource::ResourceView {
                        content: Some(
                            crate::domain::resource::ResourceContentView {
                                size: b.size,
                                checksum: Some(session@.expected_checksum),
                                mime_type: session@.mime_type,
                                status: crate::domain::resource::ContentVerificationStatus::Verified,
                                verification_error: None,
                                modified_at: Some(b.modified_at),
                            },
                        ),
                        revision: 2,
                        ..resource@
                    })) && (r.1 matches UploadAction::InsertResource(x) && (r.0 matches Finalization::AwaitInsert {
                        resource: inserted,
                        ..
                    } && x@ == inserted@))
                },
            },
            (Finalization::AwaitCompletion { resource, .. }, UploadEvent::Failed(e)) => r.0 is AwaitRowRollback
                && r.1 == UploadAction::DeleteIfRevision {
                id: resource@.id,
                revision: resource@.revision,
            },
            (Finalization::AwaitDiscard { resource }, _) => r.0 is Finished && (r.1 matches UploadAction::Finish(
                Ok(UploadOutcome::Resource(x)),
            ) && x@ == resource@),
            (Finalization::AwaitBlobCleanup { error }, _) => r.0 is Finished && r.1
                == UploadAction::Finish(Err(error)),
            (Finalization::AwaitPublish { checksum, resource, key }, UploadEvent::Failed(error)) => if error is Conflict {
                (r.0 matches Finalization::AwaitTarget { checksum: c, resource: res, key: k, error: x }
                    && c@ == checksum@ && res@ == resource@ && k@ == key@ && x == error) && (
                r.1 matches UploadAction::Inspect(q) && q@ == key@)
            } else {
                r.0 is Finished && r.1 == UploadAction::Finish(Err(error))
            },
            (Finalization::AwaitTarget { checksum, resource, key, error }, UploadEvent::Stored(stored)) => if stored matches Some(b)
                && b.size == session@.offset {
                (r.0 matches Finalization::AwaitTargetChecksum { checksum: c, resource: res, key: k, error: x }
                    && c@ == checksum@ && res@ == resource@ && k@ == key@ && x == error) && (
                r.1 matches UploadAction::ComputeChecksum(q) && q@ == key@)
            } else {
                r.0 is Finished && r.1 == UploadAction::Finish(Err(error))
            },
            (
                Finalization::AwaitTargetChecksum { checksum, resource, key, error },
                UploadEvent::ChecksumComputed(found),
            ) => if found matches Some(c) && c@ == checksum@ {
                (r.0 matches Finalization::AwaitStored { checksum: c2, resource: res, key: k, published: p }
                    && c2@ == checksum@ && res@ == resource@ && k@ == key@ && !p) && (
                r.1 matches UploadAction::Inspect(q) && q@ == key@)
            } else {
                r.0 is Finished && r.1 == UploadAction::Finish(Err(error))
            },
            (Finalization::AwaitStored { key, published, .. }, UploadEvent::Failed(e))
            | (Finalization::AwaitInsert { key, published, .. }, UploadEvent::Failed(e)) => fin_fail_result(
                session@,
                key@,
                published,
                e,
                r,
            ),
            (Finalization::AwaitStored { key, published, .. }, _)
            | (Finalization::AwaitInsert { key, published, .. }, _)
            | (Finalization::AwaitCompletion { key, published, .. }, _) => fin_fail_result(
                session@,
                key@,
                published,
                unexpected_upload_event(),
                r,
            ),
            (Finalization::AwaitRowRollback { key, published, error }, _) => fin_fail_result(
                session@,
                key@,
                published,
                error,
                r,
            ),
            (_, UploadEvent::Failed(e)) => r.0 is Finished && r.1 == UploadAction::Finish(Err(e)),
            _ => r.0 is Finished && r.1 == UploadAction::Finish(Err(unexpected_upload_event())),
        },
{
    match state {
        Finalization::Start => (
            Finalization::AwaitExisting,
            UploadAction::LoadResource(session.resource_id()),
        ),
        Finalization::AwaitExisting => match event {
            UploadEvent::ResourceLoaded(Some(resource)) => (
                Finalization::AwaitCompletedMark { resource },
                UploadAction::MarkCompleted(session.id()),
            ),
            UploadEvent::ResourceLoaded(None) => match session.actual_checksum() {
                Some(c) => checksum_ready(session, c.clone()),
                None => (
                    Finalization::AwaitChecksum,
                    UploadAction::ComputeChecksum(staged(session.id()).key().clone()),
                ),
            },
            UploadEvent::Failed(e) => fin_end(e),
            _ => fin_end(unexpected()),
        },
        Finalization::AwaitChecksum => match event {
            UploadEvent::ChecksumComputed(found) => match found {
                None => fin_end(CoreError::NotFound { subject: Subject::StagedUpload, id: session.id().0 }),
                Some(checksum) => {
                    let saved = checksum.clone();
                    (
                        Finalization::AwaitChecksumSaved { checksum },
                        UploadAction::SaveActualChecksum { id: session.id(), checksum: saved },
                    )
                },
            },
            UploadEvent::Failed(e) => fin_end(e),
            _ => fin_end(unexpected()),
        },
        Finalization::AwaitChecksumSaved { checksum } => match event {
            UploadEvent::Completed => checksum_ready(session, checksum),
            UploadEvent::Failed(e) => fin_end(e),
            _ => fin_end(unexpected()),
        },
        Finalization::AwaitDirectory { checksum } => match event {
            UploadEvent::DirectoryLocated(directory) => {
                proof {
                    use_type_invariant(session);
                }
                let resource = match Resource::rehydrate(
                    session.resource_id(),
                    session.name(),
                    directory.id(),
                    session.kind().clone(),
                    1,
                    None,
                ) {
                    Ok(r) => r,
                    Err(e) => return fin_end(e),
                };
                let key = match crate::resource::path_resolver::resource_key(
                    directory.path(),
                    session.name(),
                ) {
                    Ok(k) => k,
                    Err(e) => return fin_end(e),
                };
                (
                    Finalization::AwaitOccupant { checksum, resource, key },
                    UploadAction::FindByDirectoryAndName {
                        directory_id: directory.id(),
                        name: session.name().to_owned(),
                    },
                )
            },
            UploadEvent::Failed(e) => fin_end(e),
            _ => fin_end(unexpected()),
        },
        Finalization::AwaitOccupant { checksum, resource, key } => match event {
            UploadEvent::ResourceFound(found) => match found {
                Some(existing) => {
                    if existing.resource().id() == session.resource_id() {
                        (
                            Finalization::AwaitCompletedMark { resource: existing.into_resource() },
                            UploadAction::MarkCompleted(session.id()),
                        )
                    } else {
                        fin_end(CoreError::Conflict(Conflict::ResourcePathOccupied))
                    }
                },
                None => {
                    let to = key.clone();
                    (
                        Finalization::AwaitPublish { checksum, resource, key },
                        UploadAction::PublishStaged { staged: staged(session.id()), to },
                    )
                },
            },
            UploadEvent::Failed(e) => fin_end(e),
            _ => fin_end(unexpected()),
        },
        Finalization::AwaitPublish { checksum, resource, key } => match event {
            UploadEvent::Completed => {
                let probe = key.clone();
                (
                    Finalization::AwaitStored { checksum, resource, key, published: true },
                    UploadAction::Inspect(probe),
                )
            },
            UploadEvent::Failed(error) => match error {
                CoreError::Conflict(_) => {
                    let probe = key.clone();
                    (
                        Finalization::AwaitTarget { checksum, resource, key, error },
                        UploadAction::Inspect(probe),
                    )
                },
                _ => fin_end(error),
            },
            _ => fin_end(unexpected()),
        },
        Finalization::AwaitTarget { checksum, resource, key, error } => match event {
            UploadEvent::Stored(stored) => match stored {
                Some(b) => {
                    if b.size != session.offset() {
                        return fin_end(error);
                    }
                    let probe = key.clone();
                    (
                        Finalization::AwaitTargetChecksum { checksum, resource, key, error },
                        UploadAction::ComputeChecksum(probe),
                    )
                },
                None => fin_end(error),
            },
            UploadEvent::Failed(e) => fin_end(e),
            _ => fin_end(unexpected()),
        },
        Finalization::AwaitTargetChecksum { checksum, resource, key, error } => match event {
            UploadEvent::ChecksumComputed(found) => {
                let matches = match &found {
                    Some(c) => c.same_as(&checksum),
                    None => false,
                };
                if !matches {
                    return fin_end(error);
                }
                let probe = key.clone();
                (
                    Finalization::AwaitStored { checksum, resource, key, published: false },
                    UploadAction::Inspect(probe),
                )
            },
            UploadEvent::Failed(e) => fin_end(e),
            _ => fin_end(unexpected()),
        },
        Finalization::AwaitStored { checksum, resource, key, published } => match event {
            UploadEvent::Stored(stored) => match stored {
                None => fin_fail(
                    session,
                    key,
                    published,
                    CoreError::Conflict(Conflict::BlobDisappearedDuringFinalization),
                ),
                Some(b) => {
                    if b.size != session.offset() {
                        return fin_fail(
                            session,
                            key,
                            published,
                            CoreError::Conflict(Conflict::BlobChangedDuringFinalization),
                        );
                    }
                    let mime_type = match session.mime_type() {
                        Some(m) => Some(m.to_owned()),
                        None => None,
                    };
                    let content = ResourceContent::verified(b.size, checksum, mime_type, Some(b.modified_at));
                    let mut resource = resource;
                    match resource.attach_content(content) {
                        Ok(_) => {},
                        Err(e) => return fin_fail(session, key, published, e),
                    }
                    let inserted = resource.clone();
                    (
                        Finalization::AwaitInsert { resource, key, published },
                        UploadAction::InsertResource(inserted),
                    )
                },
            },
            UploadEvent::Failed(e) => fin_fail(session, key, published, e),
            _ => fin_fail(session, key, published, unexpected()),
        },
        Finalization::AwaitInsert { resource, key, published } => match event {
            UploadEvent::Completed => (
                Finalization::AwaitCompletion { resource, key, published },
                UploadAction::MarkCompleted(session.id()),
            ),
            UploadEvent::Failed(e) => fin_fail(session, key, published, e),
            _ => fin_fail(session, key, published, unexpected()),
        },
        Finalization::AwaitCompletion { resource, key, published } => match event {
            UploadEvent::Completed => (
                Finalization::AwaitDiscard { resource },
                UploadAction::DiscardStaged(staged(session.id())),
            ),
            UploadEvent::Failed(error) => {
                let id = resource.id();
                let revision = resource.revision();
                (
                    Finalization::AwaitRowRollback { key, published, error },
                    UploadAction::DeleteIfRevision { id, revision },
                )
            },
            _ => fin_fail(session, key, published, unexpected()),
        },
        Finalization::AwaitRowRollback { key, published, error } => fin_fail(
            session,
            key,
            published,
            error,
        ),
        Finalization::AwaitBlobCleanup { error } => fin_end(error),
        Finalization::AwaitCompletedMark { resource } => match event {
            UploadEvent::Completed => (
                Finalization::AwaitDiscard { resource },
                UploadAction::DiscardStaged(staged(session.id())),
            ),
            UploadEvent::Failed(e) => fin_end(e),
            _ => fin_end(unexpected()),
        },
        Finalization::AwaitDiscard { resource } => (
            Finalization::Finished,
            UploadAction::Finish(Ok(UploadOutcome::Resource(resource))),
        ),
        Finalization::Finished => match event {
            UploadEvent::Failed(e) => fin_end(e),
            _ => fin_end(unexpected()),
        },
    }
}

fn clone_text(o: &Option<String>) -> (r: Option<String>)
    ensures
        opt_text(r) == opt_text(*o),
{
    match o {
        Some(t) => Some(t.clone()),
        None => None,
    }
}

fn clone_kind(o: &Option<ResourceKind>) -> (r: Option<ResourceKind>)
    ensures
        crate::resource::contract::opt_kind(r) == crate::resource::contract::opt_kind(*o),
{
    match o {
        Some(k) => Some(k.clone()),
        None => None,
    }
}

/// The inputs of starting an upload.
#[derive(Debug)]
pub struct CreateRun {
    pub owner_id: UserId,
    pub command: CreateUpload,
}

/// Phases of starting an upload.
#[derive(Debug)]
pub enum CreatePhase {
    Start,
    AwaitDirectory,
    AwaitKind { directory: DirectoryLocation },
    AwaitOccupant { directory: DirectoryLocation, kind: ResourceKind },
    AwaitStagedCreated { session: UploadSession },
    AwaitSave { session: UploadSession },
    AwaitFailureDiscard { error: CoreError },
    Finished,
}

fn create_end(e: CoreError) -> (r: (CreatePhase, UploadAction))
    ensures
        r.0 is Finished && r.1 == UploadAction::Finish(Err(e)),
{
    (CreatePhase::Finished, UploadAction::Finish(Err(e)))
}

/// One step of starting an upload of a new Resource.
///
/// The visible key of the name in the Directory must lie outside the reserved namespace, the
/// kind must resolve, the name must be a valid Resource name that no Resource holds yet. The new
/// session's staged content is created before the session is saved; if saving fails the staged
/// content is discarded.
pub fn create_step(run: &CreateRun, state: CreatePhase, event: UploadEvent) -> (r: (
    CreatePhase,
    UploadAction,
))
    ensures
        match (state, event) {
            (CreatePhase::Start, _) => r.0 is AwaitDirectory && r.1 == UploadAction::LocateDirectory(
                run.command.directory_id,
            ),
            (CreatePhase::AwaitDirectory, UploadEvent::DirectoryLocated(d)) => {
                let key = resource_key_text(d@.1, run.command.name@);
                if !crate::domain::path::valid_path(key) {
                    r.0 is Finished && r.1 == UploadAction::Finish(Err(CoreError::InvalidStorageKey))
                } else if in_reserved_namespace(key) {
                    r.0 is Finished && r.1 == UploadAction::Finish(
                        Err(CoreError::InvalidOperation(crate::error::InvalidOperation::ReservedStorageKey)),
                    )
                } else {
                    r.0 is AwaitKind && (r.1 matches UploadAction::ResolveKind { storage_key, .. }
                        && storage_key@ == key)
                }
            },
            (CreatePhase::AwaitKind { directory }, UploadEvent::KindResolved(k)) => if !valid_segment(
                run.command.name@,
            ) {
                r.0 is Finished && r.1 == UploadAction::Finish(
                    Err(CoreError::InvalidFormat { field: crate::error::FormatField::ResourceName }),
                )
            } else {
                r.0 is AwaitOccupant && (r.1 matches UploadAction::FindByDirectoryAndName {
                    directory_id,
                    name,
                } && directory_id == directory@.0 && name@ == run.command.name@)
            },
            (CreatePhase::AwaitOccupant { directory, kind }, UploadEvent::ResourceFound(found)) => if found is Some {
                r.0 is Finished && r.1 == UploadAction::Finish(
                    Err(CoreError::Conflict(Conflict::ResourcePathOccupied)),
                )
            } else if !valid_segment(run.command.name@) {
                r.0 is Finished && r.1 == UploadAction::Finish(
                    Err(CoreError::InvalidFormat { field: crate::error::FormatField::ResourceName }),
                )
            } else {
                (r.0 matches CreatePhase::AwaitStagedCreated { session } && session@.mime_type
                    == opt_text(run.command.mime_type) && session@.actual_checksum is None && session@.owner_id
                    == run.owner_id && session@.name == run.command.name@ && session@.directory_id
                    == directory@.0 && session@.kind == kind@ && session@.expected_size
                    == run.command.expected_size && session@.expected_checksum
                    == run.command.expected_checksum@ && session@.offset == 0 && session@.status
                    == UploadStatus::Uploading && (r.1 matches UploadAction::CreateStaged(k) && k@
                    == staged_key_of(session@.id)))
            },
            (CreatePhase::AwaitStagedCreated { session }, UploadEvent::Completed) => (r.0 matches CreatePhase::AwaitSave {
                session: s,
            } && s@ == session@) && (r.1 matches UploadAction::SaveSession(t) && t@ == session@),
            (CreatePhase::AwaitSave { session }, UploadEvent::Completed) => r.0 is Finished && (r.1 matches UploadAction::Finish(
                Ok(UploadOutcome::Session(t)),
            ) && t@ == session@),
            (CreatePhase::AwaitSave { session }, UploadEvent::Failed(e)) => r.0
                == (CreatePhase::AwaitFailureDiscard { error: e }) && (r.1 matches UploadAction::DiscardStaged(
                b,
            ) && b@.0 == staged_key_of(session@.id)),
            (CreatePhase::AwaitFailureDiscard { error }, _) => r.0 is Finished && r.1
                == UploadAction::Finish(Err(error)),
            (_, UploadEvent::Failed(e)) => r.0 is Finished && r.1 == UploadAction::Finish(Err(e)),
            _ => r.0 is Finished && r.1 == UploadAction::Finish(Err(unexpected_upload_event())),
        },
{
    match state {
        CreatePhase::Start => (
            CreatePhase::AwaitDirectory,
            UploadAction::LocateDirectory(run.command.directory_id),
        ),
        CreatePhase::AwaitDirectory => match event {
            UploadEvent::DirectoryLocated(directory) => {
                let key = match crate::resource::path_resolver::resource_key(
                    directory.path(),
                    run.command.name.as_str(),
                ) {
                    Ok(k) => k,
                    Err(e) => return create_end(e),
                };
                match crate::resource::path_resolver::reject_reserved_storage_key(&key) {
                    Ok(_) => {},
                    Err(e) => return create_end(e),
                }
                (
                    CreatePhase::AwaitKind { directory },
                    UploadAction::ResolveKind {
                        kind: clone_kind(&run.command.kind),
                        mime_type: clone_text(&run.command.mime_type),
                        storage_key: key,
                    },
                )
            },
            UploadEvent::Failed(e) => create_end(e),
            _ => create_end(unexpected()),
        },
        CreatePhase::AwaitKind { directory } => match event {
            UploadEvent::KindResolved(kind) => {
                match Resource::create(run.command.name.as_str(), directory.id(), kind.clone()) {
                    Ok(_) => {},
                    Err(e) => return create_end(e),
                }
                let directory_id = directory.id();
                (
                    CreatePhase::AwaitOccupant { directory, kind },
                    UploadAction::FindByDirectoryAndName {
                        directory_id,
                        name: run.command.name.clone(),
                    },
                )
            },
            UploadEvent::Failed(e) => create_end(e),
            _ => create_end(unexpected()),
        },
        CreatePhase::AwaitOccupant { directory, kind } => match event {
            UploadEvent::ResourceFound(found) => {
                if found.is_some() {
                    return create_end(CoreError::Conflict(Conflict::ResourcePathOccupied));
                }
                let session = match UploadSession::new(
                    run.owner_id,
                    run.command.name.as_str(),
                    directory.id(),
                    kind,
                    clone_text(&run.command.mime_type),
                    run.command.expected_size,
                    run.command.expected_checksum.clone(),
                ) {
                    Ok(s) => s,
                    Err(e) => return create_end(e),
                };
                let key = staged(session.id()).key().clone();
                (CreatePhase::AwaitStagedCreated { session }, UploadAction::CreateStaged(key))
            },
            UploadEvent::Failed(e) => create_end(e),
            _ => create_end(unexpected()),
        },
        CreatePhase::AwaitStagedCreated { session } => match event {
            UploadEvent::Completed => {
                let saved = session.clone();
                (CreatePhase::AwaitSave { session }, UploadAction::SaveSession(saved))
            },
            UploadEvent::Failed(e) => create_end(e),
            _ => create_end(unexpected()),
        },
        CreatePhase::AwaitSave { session } => match event {
            UploadEvent::Completed => (
                CreatePhase::Finished,
                UploadAction::Finish(Ok(UploadOutcome::Session(session))),
            ),
            UploadEvent::Failed(error) => (
                CreatePhase::AwaitFailureDiscard { error },
                UploadAction::DiscardStaged(staged(session.id())),
            ),
            _ => create_end(unexpected()),
        },
        CreatePhase::AwaitFailureDiscard { error } => create_end(error),
        CreatePhase::Finished => match event {
            UploadEvent::Failed(e) => create_end(e),
            _ => create_end(unexpected()),
        },
    }
}

/// The inputs of storing content the service generated itself.
#[derive(Debug)]
pub struct GeneratedRun {
    pub directory: DirectoryLocation,
    pub name: String,
    pub kind: Option<ResourceKind>,
    pub mime_type: Option<String>,
    pub data: Vec<u8>,
}

/// Phases of storing generated content as a new Resource.
#[derive(Debug)]
pub enum GeneratedPhase {
    Start,
    AwaitKind { key: StorageKey },
    AwaitOccupant { key: StorageKey, resource: Resource },
    AwaitStagingCreated { key: StorageKey, resource: Resource, staging: StorageKey },
    AwaitWritten { key: StorageKey, resource: Resource, staging: StorageKey },
    AwaitSizeFailureDiscard,
    AwaitPublished { resource: Resource, staged: StagedBlob },
    AwaitInserted { key: StorageKey, resource: Resource, staged: StagedBlob },
    AwaitInsertUndoBlob { staged: StagedBlob, error: CoreError },
    AwaitInsertUndoStaged { error: CoreError },
    AwaitFinalDiscard { resource: Resource },
    Finished,
}

fn gen_end(e: CoreError) -> (r: (GeneratedPhase, UploadAction))
    ensures
        r.0 is Finished && r.1 == UploadAction::Finish(Err(e)),
{
    (GeneratedPhase::Finished, UploadAction::Finish(Err(e)))
}

/// Safety of storing generated content: only content staged with exactly the generated size is
/// published, at the Resource's visible key; the inserted Resource carries verified content of
/// that size with the checksum of the generated bytes.
pub open spec fn generated_safe(run: GeneratedRun, state: GeneratedPhase, event: UploadEvent, a: UploadAction) -> bool {
    match a {
        UploadAction::PublishStaged { staged, to } => staged@.1 == run.data@.len() && (state matches GeneratedPhase::AwaitWritten {
            key,
            ..
        } && to@ == key@) && event == UploadEvent::Written(staged@.1),
        UploadAction::InsertResource(r) => r@.content matches Some(c) && c.size == run.data@.len()
            && c.checksum == Some(
            crate::domain::checksum::hex_text(crate::domain::checksum::sha256_digest(run.data@)),
        ) && r@.name == run.name@ && r@.directory_id == run.directory@.0,
        _ => true,
    }
}

/// Resources being stored carry the generated content.
pub open spec fn generated_wf(run: GeneratedRun, state: GeneratedPhase) -> bool {
    let carries = |r: Resource|
        r@.content matches Some(c) && c.size == run.data@.len() && c.checksum == Some(
            crate::domain::checksum::hex_text(crate::domain::checksum::sha256_digest(run.data@)),
        ) && r@.name == run.name@ && r@.directory_id == run.directory@.0;
    let visible = resource_key_text(run.directory@.1, run.name@);
    match state {
        GeneratedPhase::AwaitKind { key } => key@ == visible,
        GeneratedPhase::AwaitOccupant { resource, key } => carries(resource) && key@ == visible,
        GeneratedPhase::AwaitStagingCreated { resource, key, .. } => carries(resource) && key@
            == visible,
        GeneratedPhase::AwaitWritten { resource, key, .. } => carries(resource) && key@ == visible,
        GeneratedPhase::AwaitPublished { resource, .. } => carries(resource) && crate::domain::path::valid_path(
            visible,
        ),
        GeneratedPhase::AwaitInserted { resource, .. } => carries(resource),
        GeneratedPhase::AwaitFinalDiscard { resource } => carries(resource),
        _ => true,
    }
}

/// One step of storing generated content as a new Resource in a Directory.
///
/// The kind must resolve and the name must be valid and free. The content's checksum is
/// computed here. The bytes are staged under a fresh internal key and must all be written; the
/// staged Blob is published at the visible key and the Resource inserted. If the insert fails,
/// the published Blob and the staged one are removed.
pub fn generated_step(run: &GeneratedRun, state: GeneratedPhase, event: UploadEvent) -> (r: (
    GeneratedPhase,
    UploadAction,
))
    requires
        generated_wf(*run, state),
    ensures
        generated_wf(*run, r.0),
        generated_safe(*run, state, event, r.1),
        match (state, event) {
            (GeneratedPhase::Start, _) => if crate::domain::path::valid_path(
                resource_key_text(run.directory@.1, run.name@),
            ) {
                r.0 is AwaitKind && (r.1 matches UploadAction::ResolveKind { storage_key, .. }
                    && storage_key@ == resource_key_text(run.directory@.1, run.name@))
            } else {
                r.0 is Finished && r.1 == UploadAction::Finish(Err(CoreError::InvalidStorageKey))
            },
            (GeneratedPhase::AwaitOccupant { .. }, UploadEvent::ResourceFound(Some(_))) => r.0 is Finished
                && r.1 == UploadAction::Finish(Err(CoreError::Conflict(Conflict::ResourcePathOccupied))),
            (GeneratedPhase::AwaitOccupant { .. }, UploadEvent::ResourceFound(None)) => (r.0 is AwaitStagingCreated
                && (r.1 matches UploadAction::CreateStaged(k) && exists|id: u128|
                k@ == generated_staging_base() + #[trigger] crate::domain::ids::uuid_text(id))),
            (GeneratedPhase::AwaitKind { key }, UploadEvent::KindResolved(kind)) => if valid_segment(
                run.name@,
            ) {
                (r.0 matches GeneratedPhase::AwaitOccupant { key: k, resource } && k@ == key@
                    && resource@.name == run.name@ && resource@.directory_id == run.directory@.0
                    && resource@.kind == kind@ && resource@.revision == 2 && resource@.content == Some(
                    crate::domain::resource::ResourceContentView {
                        size: run.data@.len() as u64,
                        checksum: Some(
                            crate::domain::checksum::hex_text(
                                crate::domain::checksum::sha256_digest(run.data@),
                            ),
                        ),
                        mime_type: opt_text(run.mime_type),
                        status: crate::domain::resource::ContentVerificationStatus::Verified,
                        verification_error: None,
                        modified_at: None,
                    },
                )) && (r.1 matches UploadAction::FindByDirectoryAndName { directory_id, name }
                    && directory_id == run.directory@.0 && name@ == run.name@)
            } else {
                r.0 is Finished && r.1 == UploadAction::Finish(
                    Err(CoreError::InvalidFormat { field: crate::error::FormatField::ResourceName }),
                )
            },
            (GeneratedPhase::AwaitStagingCreated { key, resource, staging }, UploadEvent::Completed) => (r.0 matches GeneratedPhase::AwaitWritten {
                key: k,
                resource: res,
                staging: t,
            } && k@ == key@ && res@ == resource@ && t@ == staging@) && (r.1 matches UploadAction::AppendGenerated(
                q,
            ) && q@ == staging@),
            (GeneratedPhase::AwaitWritten { key, resource, staging }, UploadEvent::Written(n)) => if n
                != run.data@.len() {
                r.0 is AwaitSizeFailureDiscard && (r.1 matches UploadAction::DiscardStaged(b) && b@ == (
                staging@,
                n,
            ))
            } else {
                (r.0 matches GeneratedPhase::AwaitPublished { resource: res, staged: b } && res@
                    == resource@ && b@ == (staging@, n)) && (r.1 matches UploadAction::PublishStaged {
                    staged,
                    to,
                } && staged@ == (staging@, n) && to@ == key@)
            },
            (GeneratedPhase::AwaitPublished { resource, staged }, UploadEvent::Completed) => (r.0 matches GeneratedPhase::AwaitInserted {
                key: k,
                resource: res,
                staged: b,
            } && k@ == resource_key_text(run.directory@.1, run.name@) && res@ == resource@ && b@
                == staged@) && (r.1 matches UploadAction::InsertResource(x) && x@ == resource@),
            (GeneratedPhase::AwaitInserted { resource, staged, .. }, UploadEvent::Completed) => (r.0 matches GeneratedPhase::AwaitFinalDiscard {
                resource: res,
            } && res@ == resource@) && (r.1 matches UploadAction::DiscardStaged(b) && b@ == staged@),
            (GeneratedPhase::AwaitSizeFailureDiscard, _) => r.0 is Finished && r.1
                == UploadAction::Finish(Err(CoreError::Conflict(Conflict::GeneratedContentSizeChanged))),
            (GeneratedPhase::AwaitInserted { key, staged, .. }, UploadEvent::Failed(e)) => r.0
                == (GeneratedPhase::AwaitInsertUndoBlob { staged, error: e }) && (r.1 matches UploadAction::DeleteBlob(
                k,
            ) && k@ == key@),
            (GeneratedPhase::AwaitFinalDiscard { resource }, UploadEvent::Completed) => r.0 is Finished
                && (r.1 matches UploadAction::Finish(Ok(UploadOutcome::Located(l))) && l@.0
                == resource@ && l@.1 == run.directory@),
            (GeneratedPhase::AwaitInsertUndoBlob { staged, error }, _) => r.0
                == GeneratedPhase::AwaitInsertUndoStaged { error } && (r.1 matches UploadAction::DiscardStaged(
                b,
            ) && b@ == staged@),
            (GeneratedPhase::AwaitInsertUndoStaged { error }, _) => r.0 is Finished && r.1
                == UploadAction::Finish(Err(error)),
            (_, UploadEvent::Failed(e)) => r.0 is Finished && r.1 == UploadAction::Finish(Err(e)),
            _ => r.0 is Finished && r.1 == UploadAction::Finish(Err(unexpected_upload_event())),
        },
{
    match state {
        GeneratedPhase::Start => {
            let key = match crate::resource::path_resolver::resource_key(
                run.directory.path(),
                run.name.as_str(),
            ) {
                Ok(k) => k,
                Err(e) => return gen_end(e),
            };
            let probe = key.clone();
            (
                GeneratedPhase::AwaitKind { key },
                UploadAction::ResolveKind {
                    kind: clone_kind(&run.kind),
                    mime_type: clone_text(&run.mime_type),
                    storage_key: probe,
                },
            )
        },
        GeneratedPhase::AwaitKind { key } => match event {
            UploadEvent::KindResolved(kind) => {
                let mut resource = match Resource::create(run.name.as_str(), run.directory.id(), kind) {
                    Ok(r) => r,
                    Err(e) => return gen_end(e),
                };
                let checksum = match crate::domain::checksum::calculate_checksum(run.data.as_slice()) {
                    Ok(c) => c,
                    Err(e) => return gen_end(e),
                };
                let size = run.data.len() as u64;
                let content = ResourceContent::verified(size, checksum, clone_text(&run.mime_type), None);
                match resource.attach_content(content) {
                    Ok(_) => {},
                    Err(e) => return gen_end(e),
                }
                (
                    GeneratedPhase::AwaitOccupant { key, resource },
                    UploadAction::FindByDirectoryAndName {
                        directory_id: run.directory.id(),
                        name: run.name.clone(),
                    },
                )
            },
            UploadEvent::Failed(e) => gen_end(e),
            _ => gen_end(unexpected()),
        },
        GeneratedPhase::AwaitOccupant { key, resource } => match event {
            UploadEvent::ResourceFound(found) => {
                if found.is_some() {
                    return gen_end(CoreError::Conflict(Conflict::ResourcePathOccupied));
                }
                let staging = match crate::resource::path_resolver::generated_staging_key(
                    crate::domain::ids::uuid_now_v7(),
                ) {
                    Ok(k) => k,
                    Err(e) => return gen_end(e),
                };
                let created = staging.clone();
                (
                    GeneratedPhase::AwaitStagingCreated { key, resource, staging },
                    UploadAction::CreateStaged(created),
                )
            },
            UploadEvent::Failed(e) => gen_end(e),
            _ => gen_end(unexpected()),
        },
        GeneratedPhase::AwaitStagingCreated { key, resource, staging } => match event {
            UploadEvent::Completed => {
                let target = staging.clone();
                (
                    GeneratedPhase::AwaitWritten { key, resource, staging },
                    UploadAction::AppendGenerated(target),
                )
            },
            UploadEvent::Failed(e) => gen_end(e),
            _ => gen_end(unexpected()),
        },
        GeneratedPhase::AwaitWritten { key, resource, staging } => match event {
            UploadEvent::Written(n) => {
                proof {
                    use_type_invariant(&key);
                }
                let staged = StagedBlob::new(staging, n);
                if n != run.data.len() as u64 {
                    return (GeneratedPhase::AwaitSizeFailureDiscard, UploadAction::DiscardStaged(staged));
                }
                let published = staged.clone();
                (
                    GeneratedPhase::AwaitPublished { resource, staged },
                    UploadAction::PublishStaged { staged: published, to: key },
                )
            },
            UploadEvent::Failed(e) => gen_end(e),
            _ => gen_end(unexpected()),
        },
        GeneratedPhase::AwaitSizeFailureDiscard => gen_end(
            CoreError::Conflict(Conflict::GeneratedContentSizeChanged),
        ),
        GeneratedPhase::AwaitPublished { resource, staged } => match event {
            UploadEvent::Completed => {
                let inserted = resource.clone();
                let key = match crate::resource::path_resolver::resource_key(
                    run.directory.path(),
                    run.name.as_str(),
                ) {
                    Ok(k) => k,
                    Err(e) => return gen_end(e),
                };
                (
                    GeneratedPhase::AwaitInserted { key, resource, staged },
                    UploadAction::InsertResource(inserted),
                )
            },
            UploadEvent::Failed(e) => gen_end(e),
            _ => gen_end(unexpected()),
        },
        GeneratedPhase::AwaitInserted { key, resource, staged } => match event {
            UploadEvent::Completed => (
                GeneratedPhase::AwaitFinalDiscard { resource },
                UploadAction::DiscardStaged(staged),
            ),
            UploadEvent::Failed(error) => (
                GeneratedPhase::AwaitInsertUndoBlob { staged, error },
                UploadAction::DeleteBlob(key),
            ),
            _ => gen_end(unexpected()),
        },
        GeneratedPhase::AwaitInsertUndoBlob { staged, error } => (
            GeneratedPhase::AwaitInsertUndoStaged { error },
            UploadAction::DiscardStaged(staged),
        ),
        GeneratedPhase::AwaitInsertUndoStaged { error } => gen_end(error),
        GeneratedPhase::AwaitFinalDiscard { resource } => match event {
            UploadEvent::Completed => match LocatedResource::new(resource, run.directory.clone()) {
                Ok(l) => (GeneratedPhase::Finished, UploadAction::Finish(Ok(UploadOutcome::Located(l)))),
                Err(e) => gen_end(e),
            },
            UploadEvent::Failed(e) => gen_end(e),
            _ => gen_end(unexpected()),
        },
        GeneratedPhase::Finished => match event {
            UploadEvent::Failed(e) => gen_end(e),
            _ => gen_end(unexpected()),
        },
    }
}

/// The kind of new content: the requested kind, else the kind detected from its MIME type and
/// key, else the default kind.
pub open spec fn chosen_kind(requested: Option<ResourceKind>, detected: Option<ResourceKind>) -> Seq<char> {
    match requested {
        Some(k) => k@,
        None => match detected {
            Some(d) => d@,
            None => crate::domain::resource::default_kind_text(),
        },
    }
}

/// The kind of new content: the requested kind, else the detected one, else the default kind.
pub fn choose_content_kind(requested: Option<ResourceKind>, detected: Option<ResourceKind>) -> (r: ResourceKind)
    ensures
        r@ == chosen_kind(requested, detected),
{
    match requested {
        Some(k) => k,
        None => match detected {
            Some(d) => d,
            None => ResourceKind::fallback(),
        },
    }
}

/// Accept the chosen kind of new content given what the registry holds for it: `registered`
/// tells whether it defines the kind and `supports_content` whether the definition accepts
/// content. An unregistered kind is unsupported, and so is one that takes no content.
pub fn accept_content_kind(kind: ResourceKind, registered: bool, supports_content: bool) -> (r:
    Result<ResourceKind, CoreError>)
    ensures
        match r {
            Ok(k) => registered && supports_content && k@ == kind@,
            Err(e) => if !registered {
                e == (CoreError::Unsupported { subject: Subject::ResourceKind })
            } else {
                !supports_content && e == (CoreError::Unsupported {
                    subject: Subject::ContentUploadKind,
                })
            },
        },
{
    if !registered {
        return Err(CoreError::Unsupported { subject: Subject::ResourceKind });
    }
    if !supports_content {
        return Err(CoreError::Unsupported { subject: Subject::ContentUploadKind });
    }
    Ok(kind)
}

} // verus!
