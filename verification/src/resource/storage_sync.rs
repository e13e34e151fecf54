//! Synchronizing the stores with one Blob: the decisions taken when storage reports a Blob as
//! changed, created or gone, when storage reports a rename, and when a first recovery pass
//! records Blobs from their metadata alone.
//!
//! Each workflow is a state machine: the caller performs the returned [`SyncAction`], reports
//! its outcome as a [`SyncEvent`], and steps again until the action is `Finish`.

use crate::domain::checksum::{
    absorbed_bytes, hex_text, sha256_digest, Checksum, ChecksumKind, ChecksumState,
};
use crate::domain::ids::{DirectoryId, ResourceId};
use crate::domain::path::{valid_segment, DirectoryPath, StorageKey};
use crate::domain::resource::{
    opt_text, ContentVerificationStatus, DirectoryLocation, Resource, ResourceContent,
    ResourceContentView, ResourceKind, ResourceView,
};
use crate::error::{Configuration, Conflict, CoreError, FormatField, Invariant};
use crate::resource::path_resolver::{key_split, resource_path_from_key};
use crate::resource::query::{located_key, LocatedResource};
use crate::resource::reconciliation::{blob_disposition, clone_text, BlobDisposition, ScannedBlob};
use vstd::prelude::*;

verus! {

/// The outcome of the last performed action.
#[derive(Debug)]
pub enum SyncEvent {
    /// No action was performed yet.
    Started,
    /// The storage scanner reported this Blob, if it exists.
    Inspected(Option<ScannedBlob>),
    /// The checksum of the stored Blob was computed over exactly its expected size.
    ChecksumComputed(Checksum),
    /// Computing the checksum failed with `error`, whose text is `message`.
    ChecksumFailed { error: CoreError, message: String },
    /// The read model returned the Resource at the asked path.
    ResourceFound(Option<LocatedResource>),
    /// All active Resources, listed page by page.
    ResourcesListed(Vec<LocatedResource>),
    /// The kind registry resolved the kind of new content.
    KindResolved(ResourceKind),
    /// The Directory path exists in the Directory store.
    DirectoryEnsured(DirectoryLocation),
    /// A revision-guarded write reported whether it applied.
    Applied(bool),
    /// The action completed.
    Completed,
    /// The action failed.
    Failed(CoreError),
}

/// The next operation to perform.
#[derive(Debug)]
pub enum SyncAction {
    /// Report the current metadata of a Blob.
    Inspect(StorageKey),
    /// Compute the checksum of a stored Blob, failing when its size is not `expected_size`.
    ComputeChecksum { key: StorageKey, expected_size: u64 },
    /// Find the Resource named `name` in the Directory at `directory`.
    FindByPath { directory: DirectoryPath, name: String },
    /// List all active Resources.
    ListActiveResources,
    /// Resolve the kind of new content from its MIME type and key.
    ResolveKind { mime_type: Option<String>, storage_key: StorageKey },
    /// Make sure the Directory path exists in the Directory store.
    EnsurePath(DirectoryPath),
    /// Store the aggregate if the stored one still has the revision.
    SaveIfUnchanged { resource: Resource, expected_revision: u64 },
    /// Remove the aggregate if it still has the revision; whether it applied is not needed.
    RemoveIfUnchanged { id: ResourceId, revision: u64 },
    /// Insert a new aggregate.
    Save(Resource),
    /// Run the Blob synchronization that starts at this key to completion.
    RunKeySync(StorageKey),
    /// Run the Blob synchronization of this scanned Blob to completion.
    RunBlobSync(ScannedBlob),
    /// The workflow ended with this result.
    Finish(Result<(), CoreError>),
}

/// Content verified from a scanned Blob with the given checksum.
pub open spec fn synced_content(blob: ScannedBlob, checksum: Seq<char>) -> ResourceContentView {
    ResourceContentView {
        size: blob.size,
        checksum: Some(checksum),
        mime_type: opt_text(blob.mime_type),
        status: ContentVerificationStatus::Verified,
        verification_error: None,
        modified_at: Some(blob.modified_at),
    }
}

/// Content of a scanned Blob whose checksum could not be computed.
pub open spec fn failed_content(blob: ScannedBlob, message: Seq<char>) -> ResourceContentView {
    ResourceContentView {
        size: blob.size,
        checksum: None,
        mime_type: opt_text(blob.mime_type),
        status: ContentVerificationStatus::Failed,
        verification_error: Some(message),
        modified_at: Some(blob.modified_at),
    }
}

/// Content of a scanned Blob whose checksum is still to be computed.
pub open spec fn pending_content(blob: ScannedBlob) -> ResourceContentView {
    ResourceContentView {
        size: blob.size,
        checksum: None,
        mime_type: opt_text(blob.mime_type),
        status: ContentVerificationStatus::Pending,
        verification_error: None,
        modified_at: Some(blob.modified_at),
    }
}

/// The error reported for an event that does not answer the pending action.
pub open spec fn unexpected_sync_event() -> CoreError {
    CoreError::Invariant(Invariant::UnexpectedRecoveryEvent)
}

fn unexpected() -> (e: CoreError)
    ensures
        e == unexpected_sync_event(),
{
    CoreError::Invariant(Invariant::UnexpectedRecoveryEvent)
}

/// `resource` after replacing its content: everything else but the revision is kept.
pub open spec fn with_content(
    before: ResourceView,
    after: ResourceView,
    content: ResourceContentView,
) -> bool {
    after == (ResourceView { content: Some(content), revision: (before.revision + 1) as u64, ..before })
}

/// A listed Resource is a rename candidate for verified content when it records content of
/// the same size and checksum.
pub open spec fn rename_match(l: (ResourceView, (crate::domain::ids::DirectoryId, Seq<char>)), content: ResourceContentView) -> bool {
    l.0.content matches Some(c) && c.size == content.size && content.checksum is Some
        && c.checksum == content.checksum
}

/// Phases of synchronizing one Blob.
#[derive(Debug)]
pub enum BlobSync {
    /// Synchronize the Blob at `key`, whatever its state.
    Start { key: StorageKey },
    /// Synchronize a Blob whose current metadata is known.
    Scanned { blob: ScannedBlob },
    AwaitInspect { key: StorageKey },
    AwaitMissingLookup,
    AwaitMissingRemoval,
    AwaitChecksum { blob: ScannedBlob, directory: DirectoryPath, name: String },
    AwaitExisting { blob: ScannedBlob, directory: DirectoryPath, name: String, content: ResourceContent },
    AwaitContentSave,
    AwaitCandidates { blob: ScannedBlob, directory: DirectoryPath, name: String, content: ResourceContent },
    AwaitCandidatePresence {
        blob: ScannedBlob,
        directory: DirectoryPath,
        name: String,
        content: ResourceContent,
        listed: Vec<LocatedResource>,
        index: usize,
        candidate: Option<usize>,
    },
    AwaitMoveDirectory { resource: Resource, expected_revision: u64, content: ResourceContent },
    AwaitMoveSave,
    AwaitKind { blob: ScannedBlob, directory: DirectoryPath, name: String, content: ResourceContent },
    AwaitNewDirectory { name: String, content: ResourceContent, kind: ResourceKind },
    AwaitInsert,
    AwaitFailInspect { blob: ScannedBlob, error: CoreError, message: String },
    AwaitFailLookup { blob: ScannedBlob, directory: DirectoryPath, name: String, error: CoreError, message: String },
    AwaitFailSave { error: CoreError },
    AwaitFailKind { blob: ScannedBlob, directory: DirectoryPath, name: String, error: CoreError, message: String },
    AwaitFailDirectory { name: String, content: ResourceContent, kind: ResourceKind, error: CoreError },
    AwaitFailInsert { error: CoreError },
    /// Record a Blob from its metadata alone, unless its path already has a Resource.
    Recover { blob: ScannedBlob },
    AwaitRecoveredLookup { blob: ScannedBlob },
    AwaitRecoveredKind { directory: DirectoryPath, name: String, content: ResourceContent },
    Finished,
}

/// The path and name of a phase belong to its Blob, and its content describes the Blob.
pub open spec fn blob_sync_wf(state: BlobSync) -> bool {
    match state {
        BlobSync::AwaitChecksum { blob, directory, name } => (directory@, name@) == key_split(blob.key@),
        BlobSync::AwaitExisting { blob, directory, name, content } => (directory@, name@)
            == key_split(blob.key@) && exists|c: Seq<char>| content@ == synced_content(blob, c),
        BlobSync::AwaitCandidates { blob, directory, name, content } => (directory@, name@)
            == key_split(blob.key@) && exists|c: Seq<char>| content@ == synced_content(blob, c),
        BlobSync::AwaitCandidatePresence { blob, directory, name, content, listed, index, candidate } => {
            &&& (directory@, name@) == key_split(blob.key@)
            &&& exists|c: Seq<char>| content@ == synced_content(blob, c)
            &&& index < listed@.len()
            &&& rename_match(listed@[index as int]@, content@)
            &&& candidate matches Some(k) ==> k < index && rename_match(listed@[k as int]@, content@)
        },
        BlobSync::AwaitKind { blob, directory, name, content } => (directory@, name@) == key_split(
            blob.key@,
        ) && exists|c: Seq<char>| content@ == synced_content(blob, c),
        BlobSync::AwaitFailLookup { blob, directory, name, .. } => (directory@, name@) == key_split(
            blob.key@,
        ),
        BlobSync::AwaitFailKind { blob, directory, name, .. } => (directory@, name@) == key_split(
            blob.key@,
        ),
        _ => true,
    }
}

fn sync_end(e: CoreError) -> (r: (BlobSync, SyncAction))
    ensures
        r.0 is Finished && r.1 == SyncAction::Finish(Err(e)),
{
    (BlobSync::Finished, SyncAction::Finish(Err(e)))
}

fn sync_done() -> (r: (BlobSync, SyncAction))
    ensures
        r.0 is Finished && r.1 == SyncAction::Finish(Ok(())),
{
    (BlobSync::Finished, SyncAction::Finish(Ok(())))
}

fn split_key(key: &StorageKey) -> (r: (DirectoryPath, String))
    ensures
        (r.0@, r.1@) == key_split(key@),
{
    match resource_path_from_key(key) {
        Ok(parts) => parts,
        Err(_) => vstd::pervasive::unreached(),
    }
}

/// Start synchronizing a Blob whose metadata is known: compute its checksum.
fn begin_scanned(blob: ScannedBlob) -> (r: (BlobSync, SyncAction))
    ensures
        blob_sync_wf(r.0),
        r.0 matches BlobSync::AwaitChecksum { blob: b, .. } && b == blob,
        r.1 matches SyncAction::ComputeChecksum { key, expected_size } && key@ == blob.key@
            && expected_size == blob.size,
{
    let (directory, name) = split_key(&blob.key);
    let key = blob.key.clone();
    let expected_size = blob.size;
    (BlobSync::AwaitChecksum { blob, directory, name }, SyncAction::ComputeChecksum { key, expected_size })
}

/// Renaming `resource` to `name` is refused with `e`: the name is not a single valid segment, or
/// the rename would advance a revision that is already the largest.
pub open spec fn rename_refusal(resource: ResourceView, name: Seq<char>, e: CoreError) -> bool {
    ||| !valid_segment(name) && e == (CoreError::InvalidFormat { field: FormatField::ResourceName })
    ||| valid_segment(name) && name != resource.name && resource.revision == u64::MAX && e
        == CoreError::Invariant(Invariant::RevisionOverflow)
}

/// Moving `resource` to `directory_id` and then recording new content is refused with `e`: the
/// revision would pass the largest one.
pub open spec fn move_with_content_refusal(resource: ResourceView, directory_id: DirectoryId, e: CoreError) -> bool {
    &&& resource.revision + (if directory_id != resource.directory_id {
        1int
    } else {
        0int
    }) >= u64::MAX
    &&& e == CoreError::Invariant(Invariant::RevisionOverflow)
}

/// Recording a new Resource named `name` is refused with `e`: the name is not a single valid
/// segment.
pub open spec fn new_resource_refusal(name: Seq<char>, e: CoreError) -> bool {
    !valid_segment(name) && e == (CoreError::InvalidFormat { field: FormatField::ResourceName })
}

/// The position of the first Resource of `listed`, from `from` on, that is a rename candidate
/// for `content`.
pub open spec fn first_candidate(listed: Seq<LocatedResource>, from: int, content: ResourceContentView) -> Option<int>
    decreases listed.len() - from,
{
    if from < 0 || from >= listed.len() {
        None
    } else if rename_match(listed[from]@, content) {
        Some(from)
    } else {
        first_candidate(listed, from + 1, content)
    }
}

proof fn lemma_first_candidate(listed: Seq<LocatedResource>, from: int, content: ResourceContentView, r: Option<usize>)
    requires
        0 <= from,
        match r {
            Some(i) => from <= i < listed.len() && rename_match(listed[i as int]@, content) && forall|j: int|
                from <= j < i ==> !rename_match(#[trigger] listed[j]@, content),
            None => forall|j: int| from <= j < listed.len() ==> !rename_match(#[trigger] listed[j]@, content),
        },
    ensures
        first_candidate(listed, from, content) == match r {
            Some(i) => Some(i as int),
            None => None,
        },
    decreases listed.len() - from,
{
    if from < listed.len() {
        if r != Some(from as usize) {
            assert(!rename_match(listed[from]@, content));
            lemma_first_candidate(listed, from + 1, content, r);
        }
    }
}

/// What follows the search for a missing Resource with the same content: the single candidate
/// is renamed to the Blob's name and moved to the Blob's directory, or else a new Resource is
/// created for the Blob, starting with its kind.
pub open spec fn candidates_result(
    blob: ScannedBlob,
    directory: Seq<char>,
    name: Seq<char>,
    content: ResourceContentView,
    listed: Seq<LocatedResource>,
    candidate: Option<usize>,
    r: (BlobSync, SyncAction),
) -> bool {
    match candidate {
        Some(k) => match r.1 {
            SyncAction::EnsurePath(d) => d@ == directory && (r.0 matches BlobSync::AwaitMoveDirectory {
                resource,
                expected_revision,
                content: c,
            } && expected_revision == listed[k as int]@.0.revision && resource@.id
                == listed[k as int]@.0.id && resource@.name == name && c@ == content),
            SyncAction::Finish(Err(e)) => r.0 is Finished && rename_refusal(listed[k as int]@.0, name, e),
            _ => false,
        },
        None => (r.0 matches BlobSync::AwaitKind { blob: b, directory: d, name: n, content: c } && b
            == blob && d@ == directory && n@ == name && c@ == content) && (r.1 matches SyncAction::ResolveKind {
            storage_key,
            mime_type,
        } && storage_key@ == blob.key@ && mime_type == blob.mime_type),
    }
}

/// The first listed Resource from `from` on that is a rename candidate for `content`.
fn next_candidate(listed: &Vec<LocatedResource>, from: usize, content: &ResourceContent) -> (r: Option<usize>)
    ensures
        first_candidate(listed@, from as int, content@) == match r {
            Some(i) => Some(i as int),
            None => None,
        },
        match r {
            Some(i) => from <= i < listed@.len() && rename_match(listed@[i as int]@, content@)
                && forall|j: int| from <= j < i ==> !rename_match(#[trigger] listed@[j]@, content@),
            None => forall|j: int|
                from <= j < listed@.len() ==> !rename_match(#[trigger] listed@[j]@, content@),
        },
{
    let wanted = match content.checksum() {
        Some(c) => c,
        None => {
            proof {
                lemma_first_candidate(listed@, from as int, content@, None);
            }
            return None;
        },
    };
    let mut i = from;
    while i < listed.len()
        invariant
            from <= i || i == from,
            i >= from,
            content@.checksum == Some(wanted@),
            forall|j: int| from <= j < i ==> !rename_match(#[trigger] listed@[j]@, content@),
        decreases listed@.len() - i,
    {
        let matches = match listed[i].resource().content() {
            Some(existing) => existing.size() == content.size() && match existing.checksum() {
                Some(c) => c.same_as(wanted),
                None => false,
            },
            None => false,
        };
        if matches {
            proof {
                lemma_first_candidate(listed@, from as int, content@, Some(i));
            }
            return Some(i);
        }
        i = i + 1;
    }
    proof {
        lemma_first_candidate(listed@, from as int, content@, None);
    }
    None
}

/// After the search for a missing Resource with the same content: move the single candidate
/// to the Blob's path, or create a new Resource when there is none or more than one.
fn after_candidates(
    blob: ScannedBlob,
    directory: DirectoryPath,
    name: String,
    content: ResourceContent,
    listed: Vec<LocatedResource>,
    candidate: Option<usize>,
) -> (r: (BlobSync, SyncAction))
    requires
        (directory@, name@) == key_split(blob.key@),
        exists|c: Seq<char>| content@ == synced_content(blob, c),
        candidate matches Some(k) ==> k < listed@.len(),
    ensures
        blob_sync_wf(r.0),
        candidates_result(blob, directory@, name@, content@, listed@, candidate, r),
{
    match candidate {
        Some(k) => {
            let mut resource = listed[k].resource().clone();
            let expected_revision = resource.revision();
            match resource.rename(name.as_str()) {
                Ok(_) => {},
                Err(e) => return sync_end(e),
            }
            (BlobSync::AwaitMoveDirectory { resource, expected_revision, content }, SyncAction::EnsurePath(directory))
        },
        None => {
            let mime_type = clone_text(&blob.mime_type);
            let storage_key = blob.key.clone();
            (BlobSync::AwaitKind { blob, directory, name, content }, SyncAction::ResolveKind { mime_type, storage_key })
        },
    }
}

/// One step of synchronizing a Blob with the stores. A Blob that exists gets its checksum
/// computed; the Resource at its path then records the verified content (unchanged content is
/// left alone), or else the single missing Resource with the same size and checksum is moved
/// there, or else a new Resource is created. A Blob that is gone removes the Resource with
/// content at its path. When the checksum cannot be computed of a Blob that is still as
/// scanned, the failure is recorded on its Resource before it is reported.
#[verifier::rlimit(40)]
pub fn blob_sync_step(state: BlobSync, event: SyncEvent) -> (r: (BlobSync, SyncAction))
    requires
        blob_sync_wf(state),
    ensures
        blob_sync_wf(r.0),
        match (state, event) {
            (BlobSync::Start { key }, _) => r.0 is AwaitInspect && (r.1 matches SyncAction::Inspect(k)
                && k@ == key@),
            (BlobSync::Scanned { blob }, _) => r.1 matches SyncAction::ComputeChecksum {
                key,
                expected_size,
            } && key@ == blob.key@ && expected_size == blob.size,
            (BlobSync::AwaitInspect { key }, SyncEvent::Inspected(None)) => r.0 is AwaitMissingLookup
                && (r.1 matches SyncAction::FindByPath { directory, name } && (directory@, name@)
                == key_split(key@)),
            (BlobSync::AwaitInspect { .. }, SyncEvent::Inspected(Some(b))) => r.1 matches SyncAction::ComputeChecksum {
                key,
                expected_size,
            } && key@ == b.key@ && expected_size == b.size,
            (BlobSync::AwaitMissingLookup, SyncEvent::ResourceFound(found)) => match found {
                Some(l) => if l@.0.content is Some {
                    r.1 == SyncAction::RemoveIfUnchanged { id: l@.0.id, revision: l@.0.revision }
                } else {
                    r.1 == SyncAction::Finish(Ok(()))
                },
                None => r.1 == SyncAction::Finish(Ok(())),
            },
            (BlobSync::AwaitMissingRemoval, SyncEvent::Applied(_)) => r.1 == SyncAction::Finish(
                Ok(()),
            ),
            (BlobSync::AwaitChecksum { blob, directory, name }, SyncEvent::ChecksumComputed(c)) => (
            r.0 matches BlobSync::AwaitExisting { content, .. } && content@ == synced_content(
                blob,
                c@,
            )) && (r.1 matches SyncAction::FindByPath { directory: d, name: n } && d@
                == directory@ && n@ == name@),
            (BlobSync::AwaitChecksum { blob, .. }, SyncEvent::ChecksumFailed { error, message }) => (
            r.0 matches BlobSync::AwaitFailInspect { error: e, message: m, .. } && e == error
                && m == message) && (r.1 matches SyncAction::Inspect(k) && k@ == blob.key@),
            (BlobSync::AwaitExisting { content, .. }, SyncEvent::ResourceFound(Some(l))) => if l@.0.content
                == Some(content@) {
                r.1 == SyncAction::Finish(Ok(()))
            } else {
                match r.1 {
                    SyncAction::SaveIfUnchanged { resource, expected_revision } => r.0 is AwaitContentSave
                        && expected_revision == l@.0.revision && with_content(
                        l@.0,
                        resource@,
                        content@,
                    ),
                    SyncAction::Finish(Err(e)) => l@.0.revision == u64::MAX && e
                        == CoreError::Invariant(Invariant::RevisionOverflow),
                    _ => false,
                }
            },
            (BlobSync::AwaitExisting { .. }, SyncEvent::ResourceFound(None)) => r.0 is AwaitCandidates
                && r.1 == SyncAction::ListActiveResources,
            (BlobSync::AwaitContentSave, SyncEvent::Applied(applied)) => r.1 == SyncAction::Finish(
                if applied {
                    Ok(())
                } else {
                    Err(CoreError::Conflict(Conflict::ResourceChangedDuringContentSync))
                },
            ),
            (BlobSync::AwaitMoveDirectory { resource, expected_revision, content }, SyncEvent::DirectoryEnsured(d)) => match r.1 {
                SyncAction::SaveIfUnchanged { resource: moved, expected_revision: e } => r.0 is AwaitMoveSave
                    && e == expected_revision && moved@.id == resource@.id && moved@.name
                    == resource@.name && moved@.kind == resource@.kind && moved@.directory_id
                    == d@.0 && moved@.content == Some(content@),
                SyncAction::Finish(Err(e)) => r.0 is Finished && move_with_content_refusal(resource@, d@.0, e),
                _ => false,
            },
            (BlobSync::AwaitMoveSave, SyncEvent::Applied(applied)) => r.1 == SyncAction::Finish(
                if applied {
                    Ok(())
                } else {
                    Err(CoreError::Conflict(Conflict::ResourceChangedDuringStorageMove))
                },
            ),
            (BlobSync::AwaitKind { name, content, .. }, SyncEvent::KindResolved(kind)) => (r.0 matches BlobSync::AwaitNewDirectory {
                name: n,
                content: c,
                kind: k,
            } && n@ == name@ && c@ == content@ && k@ == kind@) && r.1 is EnsurePath,
            (BlobSync::AwaitNewDirectory { name, content, kind }, SyncEvent::DirectoryEnsured(d)) => match r.1 {
                SyncAction::Save(created) => r.0 is AwaitInsert && created@.name == name@
                    && created@.directory_id == d@.0 && created@.kind == kind@ && created@.revision
                    == 1 && created@.content == Some(content@),
                SyncAction::Finish(Err(e)) => r.0 is Finished && new_resource_refusal(name@, e),
                _ => false,
            },
            (BlobSync::AwaitInsert, SyncEvent::Completed) => r.1 == SyncAction::Finish(Ok(())),
            (BlobSync::Recover { blob }, _) => r.0 is AwaitRecoveredLookup && (r.1 matches SyncAction::FindByPath {
                directory,
                name,
            } && (directory@, name@) == key_split(blob.key@)),
            (BlobSync::AwaitRecoveredLookup { .. }, SyncEvent::ResourceFound(Some(_))) => r.1
                == SyncAction::Finish(Ok(())),
            (BlobSync::AwaitRecoveredLookup { blob }, SyncEvent::ResourceFound(None)) => (
            r.0 matches BlobSync::AwaitRecoveredKind { directory, name, content } && (directory@, name@)
                == key_split(blob.key@) && content@ == pending_content(blob)) && (
            r.1 matches SyncAction::ResolveKind { mime_type, storage_key } && mime_type
                == blob.mime_type && storage_key@ == blob.key@),
            (BlobSync::AwaitRecoveredKind { name, content, .. }, SyncEvent::KindResolved(kind)) => (
            r.0 matches BlobSync::AwaitNewDirectory { name: n, content: c, kind: k } && n@ == name@
                && c@ == content@ && k@ == kind@) && r.1 is EnsurePath,
            (BlobSync::AwaitFailInspect { blob, error, .. }, SyncEvent::Inspected(current)) => match current {
                Some(c) => if c.size == blob.size && c.modified_at == blob.modified_at {
                    r.0 is AwaitFailLookup && (r.1 matches SyncAction::FindByPath { directory, name }
                        && (directory@, name@) == key_split(blob.key@))
                } else {
                    r.1 == SyncAction::Finish(Err(error))
                },
                None => r.1 == SyncAction::Finish(Err(error)),
            },
            (BlobSync::AwaitFailLookup { blob, error, message, .. }, SyncEvent::ResourceFound(Some(l))) => match r.1 {
                SyncAction::SaveIfUnchanged { resource, expected_revision } => r.0 == (BlobSync::AwaitFailSave { error })
                    && expected_revision == l@.0.revision && with_content(
                    l@.0,
                    resource@,
                    failed_content(blob, message@),
                ),
                SyncAction::Finish(Err(e)) => l@.0.revision == u64::MAX && e == CoreError::Invariant(
                    Invariant::RevisionOverflow,
                ),
                _ => false,
            },
            (BlobSync::AwaitFailLookup { blob, .. }, SyncEvent::ResourceFound(None)) => r.1 matches SyncAction::ResolveKind {
                storage_key,
                ..
            } && storage_key@ == blob.key@,
            (BlobSync::AwaitFailSave { error }, SyncEvent::Applied(applied)) => r.1 == SyncAction::Finish(
                Err(
                    if applied {
                        error
                    } else {
                        CoreError::Conflict(Conflict::ResourceChangedDuringFailureRecord)
                    },
                ),
            ),
            (BlobSync::AwaitFailDirectory { name, content, kind, error }, SyncEvent::DirectoryEnsured(d)) => match r.1 {
                SyncAction::Save(created) => r.0 == (BlobSync::AwaitFailInsert { error })
                    && created@.name == name@ && created@.directory_id == d@.0 && created@.kind
                    == kind@ && created@.revision == 1 && created@.content == Some(content@),
                SyncAction::Finish(Err(e)) => r.0 is Finished && new_resource_refusal(name@, e),
                _ => false,
            },
            (BlobSync::AwaitFailInsert { error }, SyncEvent::Completed) => r.1 == SyncAction::Finish(
                Err(error),
            ),
            (
                BlobSync::AwaitCandidates { blob, directory, name, content },
                SyncEvent::ResourcesListed(listed),
            ) => match first_candidate(listed@, 0, content@) {
                Some(i) => (r.0 matches BlobSync::AwaitCandidatePresence {
                    blob: b,
                    directory: d,
                    name: n,
                    content: c,
                    listed: l,
                    index,
                    candidate,
                } && b == blob && d@ == directory@ && n@ == name@ && c@ == content@ && l@ == listed@
                    && index == i && candidate is None) && (r.1 matches SyncAction::Inspect(k) && k@
                    == located_key(listed@[i]@)),
                None => candidates_result(blob, directory@, name@, content@, listed@, None, r),
            },
            (
                BlobSync::AwaitCandidatePresence { blob, directory, name, content, listed, index, candidate },
                SyncEvent::Inspected(found),
            ) => if found is None && candidate is Some {
                candidates_result(blob, directory@, name@, content@, listed@, None, r)
            } else {
                let chosen = if found is None {
                    Some(index)
                } else {
                    candidate
                };
                match first_candidate(listed@, index + 1, content@) {
                    Some(i) => (r.0 matches BlobSync::AwaitCandidatePresence {
                        blob: b,
                        directory: d,
                        name: n,
                        content: c,
                        listed: l,
                        index: x,
                        candidate: y,
                    } && b == blob && d@ == directory@ && n@ == name@ && c@ == content@ && l@
                        == listed@ && x == i && y == chosen) && (r.1 matches SyncAction::Inspect(k)
                        && k@ == located_key(listed@[i]@)),
                    None => candidates_result(blob, directory@, name@, content@, listed@, chosen, r),
                }
            },
            (
                BlobSync::AwaitFailKind { blob, directory, name, error, message },
                SyncEvent::KindResolved(kind),
            ) => (r.0 matches BlobSync::AwaitFailDirectory { name: n, content: c, kind: k, error: e }
                && n@ == name@ && k@ == kind@ && e == error && c@ == failed_content(blob, message@))
                && (r.1 matches SyncAction::EnsurePath(d) && d@ == directory@),
            (_, SyncEvent::Failed(e)) => r.0 is Finished && r.1 == SyncAction::Finish(Err(e)),
            _ => r.0 is Finished && r.1 == SyncAction::Finish(Err(unexpected_sync_event())),
        },
{
    match state {
        BlobSync::Start { key } => {
            let probe = key.clone();
            (BlobSync::AwaitInspect { key }, SyncAction::Inspect(probe))
        },
        BlobSync::Scanned { blob } => begin_scanned(blob),
        BlobSync::AwaitInspect { key } => match event {
            SyncEvent::Inspected(Some(blob)) => begin_scanned(blob),
            SyncEvent::Inspected(None) => {
                let (directory, name) = split_key(&key);
                (BlobSync::AwaitMissingLookup, SyncAction::FindByPath { directory, name })
            },
            SyncEvent::Failed(e) => sync_end(e),
            _ => sync_end(unexpected()),
        },
        BlobSync::AwaitMissingLookup => match event {
            SyncEvent::ResourceFound(Some(located)) => {
                let resource = located.resource();
                if resource.content().is_some() {
                    (
                        BlobSync::AwaitMissingRemoval,
                        SyncAction::RemoveIfUnchanged { id: resource.id(), revision: resource.revision() },
                    )
                } else {
                    sync_done()
                }
            },
            SyncEvent::ResourceFound(None) => sync_done(),
            SyncEvent::Failed(e) => sync_end(e),
            _ => sync_end(unexpected()),
        },
        BlobSync::AwaitMissingRemoval => match event {
            SyncEvent::Applied(_) => sync_done(),
            SyncEvent::Failed(e) => sync_end(e),
            _ => sync_end(unexpected()),
        },
        BlobSync::AwaitChecksum { blob, directory, name } => match event {
            SyncEvent::ChecksumComputed(checksum) => {
                let ghost c = checksum@;
                let content = ResourceContent::verified(
                    blob.size,
                    checksum,
                    clone_text(&blob.mime_type),
                    Some(blob.modified_at),
                );
                let d = directory.clone();
                let n = name.clone();
                proof {
                    assert(content@ == synced_content(blob, c));
                }
                (BlobSync::AwaitExisting { blob, directory, name, content }, SyncAction::FindByPath { directory: d, name: n })
            },
            SyncEvent::ChecksumFailed { error, message } => {
                let probe = blob.key.clone();
                (BlobSync::AwaitFailInspect { blob, error, message }, SyncAction::Inspect(probe))
            },
            SyncEvent::Failed(e) => sync_end(e),
            _ => sync_end(unexpected()),
        },
        BlobSync::AwaitExisting { blob, directory, name, content } => match event {
            SyncEvent::ResourceFound(Some(located)) => {
                let mut resource = located.into_resource();
                if crate::domain::resource::content_is(resource.content(), &content) {
                    return sync_done();
                }
                let expected_revision = resource.revision();
                match resource.attach_content(content) {
                    Ok(_) => {},
                    Err(e) => return sync_end(e),
                }
                (BlobSync::AwaitContentSave, SyncAction::SaveIfUnchanged { resource, expected_revision })
            },
            SyncEvent::ResourceFound(None) => (
                BlobSync::AwaitCandidates { blob, directory, name, content },
                SyncAction::ListActiveResources,
            ),
            SyncEvent::Failed(e) => sync_end(e),
            _ => sync_end(unexpected()),
        },
        BlobSync::AwaitContentSave => match event {
            SyncEvent::Applied(applied) => {
                if applied {
                    sync_done()
                } else {
                    sync_end(CoreError::Conflict(Conflict::ResourceChangedDuringContentSync))
                }
            },
            SyncEvent::Failed(e) => sync_end(e),
            _ => sync_end(unexpected()),
        },
        BlobSync::AwaitCandidates { blob, directory, name, content } => match event {
            SyncEvent::ResourcesListed(listed) => match next_candidate(&listed, 0, &content) {
                Some(index) => match listed[index].storage_key() {
                    Ok(key) => (
                        BlobSync::AwaitCandidatePresence {
                            blob,
                            directory,
                            name,
                            content,
                            listed,
                            index,
                            candidate: None,
                        },
                        SyncAction::Inspect(key),
                    ),
                    Err(e) => sync_end(e),
                },
                None => after_candidates(blob, directory, name, content, listed, None),
            },
            SyncEvent::Failed(e) => sync_end(e),
            _ => sync_end(unexpected()),
        },
        BlobSync::AwaitCandidatePresence { blob, directory, name, content, listed, index, candidate } => {
            let missing = match event {
                SyncEvent::Inspected(found) => found.is_none(),
                SyncEvent::Failed(e) => return sync_end(e),
                _ => return sync_end(unexpected()),
            };
            let chosen = if missing {
                match candidate {
                    Some(_) => return after_candidates(blob, directory, name, content, listed, None),
                    None => Some(index),
                }
            } else {
                candidate
            };
            let total = listed.len();
            assert(index < total);
            match next_candidate(&listed, index + 1, &content) {
                Some(next) => match listed[next].storage_key() {
                    Ok(key) => (
                        BlobSync::AwaitCandidatePresence {
                            blob,
                            directory,
                            name,
                            content,
                            listed,
                            index: next,
                            candidate: chosen,
                        },
                        SyncAction::Inspect(key),
                    ),
                    Err(e) => sync_end(e),
                },
                None => after_candidates(blob, directory, name, content, listed, chosen),
            }
        },
        BlobSync::AwaitMoveDirectory { resource, expected_revision, content } => match event {
            SyncEvent::DirectoryEnsured(directory) => {
                let mut moved = resource;
                match moved.move_to_directory(directory.id()) {
                    Ok(_) => {},
                    Err(e) => return sync_end(e),
                }
                match moved.attach_content(content) {
                    Ok(_) => {},
                    Err(e) => return sync_end(e),
                }
                (BlobSync::AwaitMoveSave, SyncAction::SaveIfUnchanged { resource: moved, expected_revision })
            },
            SyncEvent::Failed(e) => sync_end(e),
            _ => sync_end(unexpected()),
        },
        BlobSync::AwaitMoveSave => match event {
            SyncEvent::Applied(applied) => {
                if applied {
                    sync_done()
                } else {
                    sync_end(CoreError::Conflict(Conflict::ResourceChangedDuringStorageMove))
                }
            },
            SyncEvent::Failed(e) => sync_end(e),
            _ => sync_end(unexpected()),
        },
        BlobSync::AwaitKind { blob, directory, name, content } => match event {
            SyncEvent::KindResolved(kind) => (
                BlobSync::AwaitNewDirectory { name, content, kind },
                SyncAction::EnsurePath(directory),
            ),
            SyncEvent::Failed(e) => sync_end(e),
            _ => sync_end(unexpected()),
        },
        BlobSync::AwaitNewDirectory { name, content, kind } => match event {
            SyncEvent::DirectoryEnsured(directory) => {
                match Resource::rehydrate(ResourceId::new(), name.as_str(), directory.id(), kind, 1, Some(content)) {
                    Ok(created) => (BlobSync::AwaitInsert, SyncAction::Save(created)),
                    Err(e) => sync_end(e),
                }
            },
            SyncEvent::Failed(e) => sync_end(e),
            _ => sync_end(unexpected()),
        },
        BlobSync::AwaitInsert => match event {
            SyncEvent::Completed => sync_done(),
            SyncEvent::Failed(e) => sync_end(e),
            _ => sync_end(unexpected()),
        },
        BlobSync::AwaitFailInspect { blob, error, message } => match event {
            SyncEvent::Inspected(current) => match current {
                Some(current) => {
                    if current.size != blob.size || current.modified_at != blob.modified_at {
                        return sync_end(error);
                    }
                    let (directory, name) = split_key(&blob.key);
                    let d = directory.clone();
                    let n = name.clone();
                    (
                        BlobSync::AwaitFailLookup { blob, directory, name, error, message },
                        SyncAction::FindByPath { directory: d, name: n },
                    )
                },
                None => sync_end(error),
            },
            SyncEvent::Failed(e) => sync_end(e),
            _ => sync_end(unexpected()),
        },
        BlobSync::AwaitFailLookup { blob, directory, name, error, message } => match event {
            SyncEvent::ResourceFound(Some(located)) => {
                let content = ResourceContent::verification_failed(
                    blob.size,
                    message,
                    clone_text(&blob.mime_type),
                    Some(blob.modified_at),
                );
                let mut resource = located.into_resource();
                let expected_revision = resource.revision();
                match resource.attach_content(content) {
                    Ok(_) => {},
                    Err(e) => return sync_end(e),
                }
                (BlobSync::AwaitFailSave { error }, SyncAction::SaveIfUnchanged { resource, expected_revision })
            },
            SyncEvent::ResourceFound(None) => {
                let mime_type = clone_text(&blob.mime_type);
                let storage_key = blob.key.clone();
                (
                    BlobSync::AwaitFailKind { blob, directory, name, error, message },
                    SyncAction::ResolveKind { mime_type, storage_key },
                )
            },
            SyncEvent::Failed(e) => sync_end(e),
            _ => sync_end(unexpected()),
        },
        BlobSync::AwaitFailSave { error } => match event {
            SyncEvent::Applied(applied) => {
                if applied {
                    sync_end(error)
                } else {
                    sync_end(CoreError::Conflict(Conflict::ResourceChangedDuringFailureRecord))
                }
            },
            SyncEvent::Failed(e) => sync_end(e),
            _ => sync_end(unexpected()),
        },
        BlobSync::AwaitFailKind { blob, directory, name, error, message } => match event {
            SyncEvent::KindResolved(kind) => {
                let content = ResourceContent::verification_failed(
                    blob.size,
                    message,
                    clone_text(&blob.mime_type),
                    Some(blob.modified_at),
                );
                (BlobSync::AwaitFailDirectory { name, content, kind, error }, SyncAction::EnsurePath(directory))
            },
            SyncEvent::Failed(e) => sync_end(e),
            _ => sync_end(unexpected()),
        },
        BlobSync::AwaitFailDirectory { name, content, kind, error } => match event {
            SyncEvent::DirectoryEnsured(directory) => {
                match Resource::rehydrate(ResourceId::new(), name.as_str(), directory.id(), kind, 1, Some(content)) {
                    Ok(created) => (BlobSync::AwaitFailInsert { error }, SyncAction::Save(created)),
                    Err(e) => sync_end(e),
                }
            },
            SyncEvent::Failed(e) => sync_end(e),
            _ => sync_end(unexpected()),
        },
        BlobSync::AwaitFailInsert { error } => match event {
            SyncEvent::Completed => sync_end(error),
            SyncEvent::Failed(e) => sync_end(e),
            _ => sync_end(unexpected()),
        },
        BlobSync::Recover { blob } => {
            let (directory, name) = split_key(&blob.key);
            (BlobSync::AwaitRecoveredLookup { blob }, SyncAction::FindByPath { directory, name })
        },
        BlobSync::AwaitRecoveredLookup { blob } => match event {
            SyncEvent::ResourceFound(Some(_)) => sync_done(),
            SyncEvent::ResourceFound(None) => {
                let (directory, name) = split_key(&blob.key);
                let content = ResourceContent::pending(
                    blob.size,
                    clone_text(&blob.mime_type),
                    Some(blob.modified_at),
                );
                let mime_type = clone_text(&blob.mime_type);
                (
                    BlobSync::AwaitRecoveredKind { directory, name, content },
                    SyncAction::ResolveKind { mime_type, storage_key: blob.key },
                )
            },
            SyncEvent::Failed(e) => sync_end(e),
            _ => sync_end(unexpected()),
        },
        BlobSync::AwaitRecoveredKind { directory, name, content } => match event {
            SyncEvent::KindResolved(kind) => (
                BlobSync::AwaitNewDirectory { name, content, kind },
                SyncAction::EnsurePath(directory),
            ),
            SyncEvent::Failed(e) => sync_end(e),
            _ => sync_end(unexpected()),
        },
        BlobSync::Finished => match event {
            SyncEvent::Failed(e) => sync_end(e),
            _ => sync_end(unexpected()),
        },
    }
}

/// Phases of synchronizing a rename reported by storage from `from` to `to`.
#[derive(Debug)]
pub enum RenameSync {
    Start,
    AwaitTarget,
    AwaitSourceSync,
    AwaitDestinationSync,
    AwaitSource { target: ScannedBlob },
    AwaitDestination { target: ScannedBlob, resource: Resource },
    AwaitStaleSource { target: ScannedBlob },
    AwaitStaleRemoval { target: ScannedBlob },
    AwaitTargetSync,
    AwaitRenameDirectory { target: ScannedBlob, resource: Resource, expected_revision: u64 },
    AwaitRenameChecksum { target: ScannedBlob, resource: Resource, expected_revision: u64 },
    AwaitRenameSave,
    Finished,
}

fn rename_end(e: CoreError) -> (r: (RenameSync, SyncAction))
    ensures
        r.0 is Finished && r.1 == SyncAction::Finish(Err(e)),
{
    (RenameSync::Finished, SyncAction::Finish(Err(e)))
}

fn rename_done() -> (r: (RenameSync, SyncAction))
    ensures
        r.0 is Finished && r.1 == SyncAction::Finish(Ok(())),
{
    (RenameSync::Finished, SyncAction::Finish(Ok(())))
}

/// One step of synchronizing a rename from `from` to `to`, with both keys locked. When the
/// target is gone both keys are synchronized on their own. Otherwise the Resource at `from`
/// keeps its identity and moves to `to` with content verified from the target, unless `to`
/// already has a Resource: then the one at `from` is removed and the target is synchronized.
/// Without a Resource at `from` the target is synchronized like any new Blob.
#[verifier::rlimit(30)]
pub fn rename_sync_step(from: &StorageKey, to: &StorageKey, state: RenameSync, event: SyncEvent) -> (r: (
    RenameSync,
    SyncAction,
))
    ensures
        match (state, event) {
            (RenameSync::Start, _) => r.0 is AwaitTarget && (r.1 matches SyncAction::Inspect(k)
                && k@ == to@),
            (RenameSync::AwaitTarget, SyncEvent::Inspected(None)) => r.0 is AwaitSourceSync && (
            r.1 matches SyncAction::RunKeySync(k) && k@ == from@),
            (RenameSync::AwaitTarget, SyncEvent::Inspected(Some(t))) => (r.0 matches RenameSync::AwaitSource {
                target,
            } && target == t) && (r.1 matches SyncAction::FindByPath { directory, name }
                && (directory@, name@) == key_split(from@)),
            (RenameSync::AwaitSourceSync, SyncEvent::Completed) => r.0 is AwaitDestinationSync && (
            r.1 matches SyncAction::RunKeySync(k) && k@ == to@),
            (RenameSync::AwaitDestinationSync, SyncEvent::Completed) => r.1 == SyncAction::Finish(
                Ok(()),
            ),
            (RenameSync::AwaitSource { target }, SyncEvent::ResourceFound(None)) => r.0 is AwaitTargetSync
                && r.1 == SyncAction::RunBlobSync(target),
            (RenameSync::AwaitSource { .. }, SyncEvent::ResourceFound(Some(l))) => (r.0 matches RenameSync::AwaitDestination {
                resource,
                ..
            } && resource@ == l@.0) && (r.1 matches SyncAction::FindByPath { directory, name }
                && (directory@, name@) == key_split(to@)),
            (RenameSync::AwaitDestination { .. }, SyncEvent::ResourceFound(Some(_))) => r.0 is AwaitStaleSource
                && (r.1 matches SyncAction::FindByPath { directory, name } && (directory@, name@)
                == key_split(from@)),
            (RenameSync::AwaitDestination { resource, .. }, SyncEvent::ResourceFound(None)) => match r.1 {
                SyncAction::EnsurePath(d) => (d@, key_split(to@).1) == key_split(to@) && (r.0 matches RenameSync::AwaitRenameDirectory {
                    resource: renamed,
                    expected_revision,
                    ..
                } && expected_revision == resource@.revision && renamed@.id == resource@.id
                    && renamed@.name == key_split(to@).1),
                SyncAction::Finish(Err(e)) => r.0 is Finished && rename_refusal(resource@, key_split(to@).1, e),
                _ => false,
            },
            (RenameSync::AwaitStaleSource { .. }, SyncEvent::ResourceFound(Some(l))) => if l@.0.content is Some {
                r.0 is AwaitStaleRemoval && r.1 == SyncAction::RemoveIfUnchanged {
                    id: l@.0.id,
                    revision: l@.0.revision,
                }
            } else {
                r.0 is AwaitTargetSync && r.1 is RunBlobSync
            },
            (RenameSync::AwaitStaleRemoval { target }, SyncEvent::Applied(_)) => r.0 is AwaitTargetSync
                && r.1 == SyncAction::RunBlobSync(target),
            (RenameSync::AwaitTargetSync, SyncEvent::Completed) => r.1 == SyncAction::Finish(Ok(())),
            (RenameSync::AwaitRenameDirectory { target, resource, expected_revision }, SyncEvent::DirectoryEnsured(d)) => match r.1 {
                SyncAction::ComputeChecksum { key, expected_size } => key@ == to@ && expected_size
                    == target.size && (r.0 matches RenameSync::AwaitRenameChecksum {
                    resource: moved,
                    expected_revision: e,
                    ..
                } && e == expected_revision && moved@.id == resource@.id && moved@.name
                    == resource@.name && moved@.directory_id == d@.0),
                SyncAction::Finish(Err(e)) => r.0 is Finished && d@.0 != resource@.directory_id
                    && resource@.revision == u64::MAX && e == CoreError::Invariant(Invariant::RevisionOverflow),
                _ => false,
            },
            (RenameSync::AwaitRenameChecksum { target, resource, expected_revision }, SyncEvent::ChecksumComputed(c)) => match r.1 {
                SyncAction::SaveIfUnchanged { resource: saved, expected_revision: e } => r.0 is AwaitRenameSave
                    && e == expected_revision && saved@.id == resource@.id && saved@.name
                    == resource@.name && saved@.directory_id == resource@.directory_id
                    && saved@.content == Some(synced_content(target, c@)),
                SyncAction::Finish(Err(e)) => r.0 is Finished && resource@.content != Some(
                    synced_content(target, c@),
                ) && resource@.revision == u64::MAX && e == CoreError::Invariant(Invariant::RevisionOverflow),
                _ => false,
            },
            (RenameSync::AwaitRenameChecksum { .. }, SyncEvent::ChecksumFailed { error, .. }) => r.1
                == SyncAction::Finish(Err(error)),
            (RenameSync::AwaitRenameSave, SyncEvent::Applied(applied)) => r.1 == SyncAction::Finish(
                if applied {
                    Ok(())
                } else {
                    Err(CoreError::Conflict(Conflict::ResourceChangedDuringStorageRename))
                },
            ),
            (RenameSync::AwaitStaleSource { target }, SyncEvent::ResourceFound(None)) => r.0 is AwaitTargetSync
                && r.1 == SyncAction::RunBlobSync(target),
            (_, SyncEvent::Failed(e)) => r.0 is Finished && r.1 == SyncAction::Finish(Err(e)),
            _ => r.0 is Finished && r.1 == SyncAction::Finish(Err(unexpected_sync_event())),
        },
{
    match state {
        RenameSync::Start => (RenameSync::AwaitTarget, SyncAction::Inspect(to.clone())),
        RenameSync::AwaitTarget => match event {
            SyncEvent::Inspected(None) => (RenameSync::AwaitSourceSync, SyncAction::RunKeySync(from.clone())),
            SyncEvent::Inspected(Some(target)) => {
                let (directory, name) = split_key(from);
                (RenameSync::AwaitSource { target }, SyncAction::FindByPath { directory, name })
            },
            SyncEvent::Failed(e) => rename_end(e),
            _ => rename_end(unexpected()),
        },
        RenameSync::AwaitSourceSync => match event {
            SyncEvent::Completed => (RenameSync::AwaitDestinationSync, SyncAction::RunKeySync(to.clone())),
            SyncEvent::Failed(e) => rename_end(e),
            _ => rename_end(unexpected()),
        },
        RenameSync::AwaitDestinationSync => match event {
            SyncEvent::Completed => rename_done(),
            SyncEvent::Failed(e) => rename_end(e),
            _ => rename_end(unexpected()),
        },
        RenameSync::AwaitSource { target } => match event {
            SyncEvent::ResourceFound(None) => (RenameSync::AwaitTargetSync, SyncAction::RunBlobSync(target)),
            SyncEvent::ResourceFound(Some(located)) => {
                let resource = located.into_resource();
                let (directory, name) = split_key(to);
                (RenameSync::AwaitDestination { target, resource }, SyncAction::FindByPath { directory, name })
            },
            SyncEvent::Failed(e) => rename_end(e),
            _ => rename_end(unexpected()),
        },
        RenameSync::AwaitDestination { target, resource } => match event {
            SyncEvent::ResourceFound(Some(_)) => {
                let (directory, name) = split_key(from);
                (RenameSync::AwaitStaleSource { target }, SyncAction::FindByPath { directory, name })
            },
            SyncEvent::ResourceFound(None) => {
                let expected_revision = resource.revision();
                let (directory, name) = split_key(to);
                let mut renamed = resource;
                match renamed.rename(name.as_str()) {
                    Ok(_) => {},
                    Err(e) => return rename_end(e),
                }
                (
                    RenameSync::AwaitRenameDirectory { target, resource: renamed, expected_revision },
                    SyncAction::EnsurePath(directory),
                )
            },
            SyncEvent::Failed(e) => rename_end(e),
            _ => rename_end(unexpected()),
        },
        RenameSync::AwaitStaleSource { target } => match event {
            SyncEvent::ResourceFound(found) => match found {
                Some(located) => {
                    let resource = located.resource();
                    if resource.content().is_some() {
                        (
                            RenameSync::AwaitStaleRemoval { target },
                            SyncAction::RemoveIfUnchanged { id: resource.id(), revision: resource.revision() },
                        )
                    } else {
                        (RenameSync::AwaitTargetSync, SyncAction::RunBlobSync(target))
                    }
                },
                None => (RenameSync::AwaitTargetSync, SyncAction::RunBlobSync(target)),
            },
            SyncEvent::Failed(e) => rename_end(e),
            _ => rename_end(unexpected()),
        },
        RenameSync::AwaitStaleRemoval { target } => match event {
            SyncEvent::Applied(_) => (RenameSync::AwaitTargetSync, SyncAction::RunBlobSync(target)),
            SyncEvent::Failed(e) => rename_end(e),
            _ => rename_end(unexpected()),
        },
        RenameSync::AwaitTargetSync => match event {
            SyncEvent::Completed => rename_done(),
            SyncEvent::Failed(e) => rename_end(e),
            _ => rename_end(unexpected()),
        },
        RenameSync::AwaitRenameDirectory { target, resource, expected_revision } => match event {
            SyncEvent::DirectoryEnsured(directory) => {
                let mut moved = resource;
                match moved.move_to_directory(directory.id()) {
                    Ok(_) => {},
                    Err(e) => return rename_end(e),
                }
                let expected_size = target.size;
                (
                    RenameSync::AwaitRenameChecksum { target, resource: moved, expected_revision },
                    SyncAction::ComputeChecksum { key: to.clone(), expected_size },
                )
            },
            SyncEvent::Failed(e) => rename_end(e),
            _ => rename_end(unexpected()),
        },
        RenameSync::AwaitRenameChecksum { target, resource, expected_revision } => match event {
            SyncEvent::ChecksumComputed(checksum) => {
                let content = ResourceContent::verified(
                    target.size,
                    checksum,
                    clone_text(&target.mime_type),
                    Some(target.modified_at),
                );
                let mut saved = resource;
                if !crate::domain::resource::content_is(saved.content(), &content) {
                    match saved.attach_content(content) {
                        Ok(_) => {},
                        Err(e) => return rename_end(e),
                    }
                }
                (RenameSync::AwaitRenameSave, SyncAction::SaveIfUnchanged { resource: saved, expected_revision })
            },
            SyncEvent::ChecksumFailed { error, .. } => rename_end(error),
            SyncEvent::Failed(e) => rename_end(e),
            _ => rename_end(unexpected()),
        },
        RenameSync::AwaitRenameSave => match event {
            SyncEvent::Applied(applied) => {
                if applied {
                    rename_done()
                } else {
                    rename_end(CoreError::Conflict(Conflict::ResourceChangedDuringStorageRename))
                }
            },
            SyncEvent::Failed(e) => rename_end(e),
            _ => rename_end(unexpected()),
        },
        RenameSync::Finished => match event {
            SyncEvent::Failed(e) => rename_end(e),
            _ => rename_end(unexpected()),
        },
    }
}

/// The checksum of a stored Blob computed while its bytes are streamed, with the number of
/// bytes seen.
pub struct StoredBlobChecksum {
    state: ChecksumState,
    actual_size: u64,
}

impl StoredBlobChecksum {
    /// The bytes streamed so far.
    pub closed spec fn streamed(&self) -> Seq<u8> {
        absorbed_bytes(self.state)
    }

    /// The number of bytes streamed so far.
    pub closed spec fn streamed_size(&self) -> u64 {
        self.actual_size
    }

    /// Start when the Blob could be opened for reading (`present`); a Blob that no longer
    /// exists has no checksum.
    pub fn begin(present: bool) -> (r: Result<StoredBlobChecksum, CoreError>)
        ensures
            match r {
                Ok(c) => present && c.streamed() == Seq::<u8>::empty() && c.streamed_size() == 0,
                Err(e) => !present && e == CoreError::Conflict(Conflict::BlobMissingForChecksum),
            },
    {
        if !present {
            return Err(CoreError::Conflict(Conflict::BlobMissingForChecksum));
        }
        Ok(StoredBlobChecksum { state: ChecksumState::new(ChecksumKind::Sha256), actual_size: 0 })
    }

    /// Absorb the next chunk. A Blob larger than `u64::MAX` bytes is refused.
    pub fn absorb(&mut self, chunk: &[u8]) -> (r: Result<(), CoreError>)
        ensures
            final(self).streamed() == old(self).streamed() + chunk@,
            match r {
                Ok(_) => old(self).streamed_size() + chunk@.len() <= u64::MAX
                    && final(self).streamed_size() == old(self).streamed_size() + chunk@.len(),
                Err(e) => old(self).streamed_size() + chunk@.len() > u64::MAX && e
                    == CoreError::Configuration(Configuration::BlobSizeOverflow),
            },
    {
        self.state.update(chunk);
        let len = chunk.len() as u64;
        match self.actual_size.checked_add(len) {
            Some(total) => {
                self.actual_size = total;
                Ok(())
            },
            None => Err(CoreError::Configuration(Configuration::BlobSizeOverflow)),
        }
    }

    /// The checksum, when exactly `expected_size` bytes were streamed; otherwise the Blob
    /// changed while it was read.
    pub fn finish(&self, expected_size: u64) -> (r: Result<Checksum, CoreError>)
        ensures
            match r {
                Ok(c) => self.streamed_size() == expected_size && c@ == hex_text(
                    sha256_digest(self.streamed()),
                ),
                Err(e) => self.streamed_size() != expected_size && e == CoreError::Conflict(
                    Conflict::BlobChangedDuringChecksum,
                ),
            },
    {
        if self.actual_size != expected_size {
            return Err(CoreError::Conflict(Conflict::BlobChangedDuringChecksum));
        }
        self.state.finish()
    }
}

/// Reconciling again changes nothing: content synchronized from a Blob is verified and
/// matches the Blob's size and modification time, so an unforced scan finds it unchanged.
pub proof fn lemma_synced_content_is_unchanged(blob: ScannedBlob, checksum: Seq<char>, defer: bool)
    ensures
        blob_disposition(Some(synced_content(blob, checksum)), blob.size, blob.modified_at, false, defer)
            == BlobDisposition::Unchanged,
{
}

/// Content recovered from a Blob's metadata alone is left for background verification by a
/// deferring scan, and rehashed by any other.
pub proof fn lemma_recovered_content_is_deferred(blob: ScannedBlob, force: bool, defer: bool)
    ensures
        blob_disposition(Some(pending_content(blob)), blob.size, blob.modified_at, force, defer)
            == if !force && defer {
            BlobDisposition::DeferVerification
        } else {
            BlobDisposition::Rehash
        },
{
}

} // verus!
