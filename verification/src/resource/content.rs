//! Resource content: content references, media types, size accounting of incoming content, and
//! the staged publication of replacement content.

use crate::domain::checksum::Checksum;
use crate::domain::ids::ResourceContentReplacementId;
use crate::domain::path::StorageKey;
use crate::domain::resource::{
    opt_text, ContentVerificationStatus, Resource, ResourceContent, ResourceContentView,
    ResourceView,
};
use crate::error::{Conflict, CoreError, Invariant, LimitSubject, StorageOperation};
use crate::resource::domain::{ResourceContentReplacement, ResourceContentReplacementView};
use crate::resource::query::located_key;
use crate::resource::recovery::{stale_resource, unexpected_event, RecoveryEvent, StorageAction};
use crate::resource::contract::ReplaceResourceContent;
use crate::resource::query::LocatedResource;
use crate::resource::path_resolver::{backup_dir, replacement_backup_key, replacement_staging_base, replacement_staging_key};
use crate::domain::ids::uuid_text;
use crate::domain::path::slash_join;
use crate::error::InvalidOperation;
use vstd::prelude::*;

verus! {

/// `application/octet-stream`
pub open spec fn octet_stream() -> Seq<char> {
    seq![
        'a',
        'p',
        'p',
        'l',
        'i',
        'c',
        'a',
        't',
        'i',
        'o',
        'n',
        '/',
        'o',
        'c',
        't',
        'e',
        't',
        '-',
        's',
        't',
        'r',
        'e',
        'a',
        'm',
    ]
}

/// The media type served for content: its MIME type, or `application/octet-stream`.
pub fn content_type_for_media(content: &ResourceContent) -> (r: String)
    ensures
        r@ == match content@.mime_type {
            Some(m) => m,
            None => octet_stream(),
        },
{
    match content.mime_type() {
        Some(m) => m.to_owned(),
        None => {
            let fallback = "application/octet-stream";
            proof {
                reveal_strlit("application/octet-stream");
                assert(fallback@ =~= octet_stream());
            }
            fallback.to_owned()
        },
    }
}

/// Verified content of `size` bytes with `checksum`.
pub fn build_verified_content(
    size: u64,
    mime_type: Option<String>,
    checksum: Checksum,
    storage_modified_at: Option<i64>,
) -> (r: Result<ResourceContent, CoreError>)
    ensures
        r matches Ok(c) && c@ == (ResourceContentView {
            size,
            checksum: Some(checksum@),
            mime_type: opt_text(mime_type),
            status: ContentVerificationStatus::Verified,
            verification_error: None,
            modified_at: storage_modified_at,
        }),
{
    Ok(ResourceContent::verified(size, checksum, mime_type, storage_modified_at))
}

/// Content of `size` bytes whose checksum is still to be computed.
pub fn build_pending_content(
    size: u64,
    mime_type: Option<String>,
    storage_modified_at: Option<i64>,
) -> (r: Result<ResourceContent, CoreError>)
    ensures
        r matches Ok(c) && c@ == (ResourceContentView {
            size,
            checksum: None,
            mime_type: opt_text(mime_type),
            status: ContentVerificationStatus::Pending,
            verification_error: None,
            modified_at: storage_modified_at,
        }),
{
    Ok(ResourceContent::pending(size, mime_type, storage_modified_at))
}

/// Content of `size` bytes whose checksum computation failed with `error`.
pub fn build_failed_content(
    size: u64,
    mime_type: Option<String>,
    error: String,
    storage_modified_at: Option<i64>,
) -> (r: Result<ResourceContent, CoreError>)
    ensures
        r matches Ok(c) && c@ == (ResourceContentView {
            size,
            checksum: None,
            mime_type: opt_text(mime_type),
            status: ContentVerificationStatus::Failed,
            verification_error: Some(error@),
            modified_at: storage_modified_at,
        }),
{
    Ok(ResourceContent::verification_failed(size, error, mime_type, storage_modified_at))
}

/// The revision conflict of a stale replacement.
pub fn stale_replacement(resource: &Resource) -> (e: CoreError)
    ensures
        e == stale_resource(resource@.id),
{
    CoreError::RevisionConflict { subject: crate::error::Subject::Resource, id: resource.id().0 }
}

/// Account one more chunk of replacement content. Returns the new total when it stays within
/// both the declared size and the text limit.
pub fn accept_replacement_chunk(received: u64, chunk_len: u64, expected_size: u64, max_size: u64) -> (r:
    Result<u64, CoreError>)
    ensures
        match r {
            Ok(total) => total == received + chunk_len && total <= expected_size && total
                <= max_size,
            Err(e) => if received + chunk_len > u64::MAX {
                e == CoreError::Invariant(Invariant::UploadSizeOverflow)
            } else if received + chunk_len > expected_size {
                e == CoreError::Conflict(Conflict::ContentExceedsDeclaredSize)
            } else {
                received + chunk_len > max_size && e == (CoreError::LimitExceeded {
                    subject: LimitSubject::ResourceTextContent,
                    limit: max_size,
                    actual: (received + chunk_len) as u64,
                })
            },
        },
{
    let total = match received.checked_add(chunk_len) {
        Some(t) => t,
        None => {
            return Err(CoreError::Invariant(Invariant::UploadSizeOverflow));
        },
    };
    if total > expected_size {
        return Err(CoreError::Conflict(Conflict::ContentExceedsDeclaredSize));
    }
    if total > max_size {
        return Err(
            CoreError::LimitExceeded {
                subject: LimitSubject::ResourceTextContent,
                limit: max_size,
                actual: total,
            },
        );
    }
    Ok(total)
}

/// Attach the replacement content to `resource` and build the durable intent that records the
/// revision it replaces. Fails, leaving `resource` unchanged, only on revision overflow.
pub fn prepare_replacement_commit(
    resource: &mut Resource,
    target_key: StorageKey,
    staged_key: StorageKey,
    replacement_id: ResourceContentReplacementId,
    backup_key: StorageKey,
    content: ResourceContent,
) -> (r: Result<ResourceContentReplacement, CoreError>)
    ensures
        match r {
            Ok(p) => old(resource)@.revision < u64::MAX && final(resource)@ == (ResourceView {
                content: Some(content@),
                revision: (old(resource)@.revision + 1) as u64,
                ..old(resource)@
            }) && p@ == (ResourceContentReplacementView {
                id: replacement_id,
                resource_id: old(resource)@.id,
                expected_revision: old(resource)@.revision,
                target_key: target_key@,
                staged_key: staged_key@,
                backup_key: backup_key@,
                replacement_content: content@,
            }),
            Err(e) => final(resource)@ == old(resource)@ && old(resource)@.revision == u64::MAX && e
                == CoreError::Invariant(Invariant::RevisionOverflow),
        },
{
    proof {
        use_type_invariant(&*resource);
    }
    let expected_revision = resource.revision();
    let attached = content.clone();
    resource.attach_content(content)?;
    ResourceContentReplacement::rehydrate(
        replacement_id,
        resource.id(),
        expected_revision,
        target_key,
        staged_key,
        backup_key,
        attached,
    )
}

/// Phases of publishing staged replacement content over a Resource's visible Blob.
#[derive(Debug)]
pub enum ReplacementCommit {
    Start,
    AwaitFind,
    AwaitIntentSave,
    AwaitBackupMove,
    AwaitPublish,
    AwaitPublishRestore { error: CoreError },
    AwaitCas,
    AwaitBackupDeletion,
    AwaitCommittedDiscard,
    AwaitCommittedIntentRemoval,
    AwaitRollbackBackupPresence { error: CoreError },
    AwaitRollbackTargetDeletion { error: CoreError },
    AwaitRollbackRestore { error: CoreError },
    AwaitRollbackTargetPresence { error: CoreError },
    AwaitRollbackDiscard { error: CoreError },
    AwaitRollbackIntentRemoval { error: CoreError },
    AwaitBestEffortDiscard { outcome: Result<(), CoreError>, then_remove_intent: bool },
    AwaitBestEffortIntentRemoval { outcome: Result<(), CoreError> },
    Finished,
}

/// The error reported when a rollback after a failed write itself fails.
pub open spec fn rollback_failure(e: CoreError) -> CoreError {
    CoreError::Storage { operation: StorageOperation::ContentReplaceRollback, source: Box::new(e) }
}

/// The error reported when restoring the backup after a failed publication fails.
pub open spec fn publish_rollback_failure(e: CoreError) -> CoreError {
    CoreError::Storage {
        operation: StorageOperation::ContentReplacePublishRollback,
        source: Box::new(e),
    }
}

/// Safety of the commit workflow: the visible target Blob is deleted only in the rollback,
/// right after its backup was seen to exist; staged content is published only after the
/// intent was saved and the old Blob moved to the backup key; only `desired` is written.
pub open spec fn commit_action_safe(
    p: ResourceContentReplacement,
    desired: Resource,
    state: ReplacementCommit,
    event: RecoveryEvent,
    a: StorageAction,
) -> bool {
    match a {
        StorageAction::DeleteBlob(k) => k@ == p@.backup_key || (k@ == p@.target_key
            && state is AwaitRollbackBackupPresence && event == RecoveryEvent::BlobPresence(true)),
        StorageAction::PublishStaged { staged, size, to } => staged@ == p@.staged_key && to@
            == p@.target_key && state is AwaitBackupMove && event == RecoveryEvent::Completed,
        StorageAction::MoveIfAbsent { from, to } => (from@ == p@.target_key && to@
            == p@.backup_key && state is AwaitIntentSave && event == RecoveryEvent::Completed) || (
        from@ == p@.backup_key && to@ == p@.target_key && (state is AwaitPublish
            || state is AwaitRollbackTargetDeletion)),
        StorageAction::UpdateIfRevision { desired: d, expected_revision } => d@ == desired@
            && expected_revision == p@.expected_revision,
        StorageAction::DiscardStaged { key, size } => key@ == p@.staged_key,
        StorageAction::SaveReplacementIntent(q) => q@ == p@,
        StorageAction::RemoveReplacementIntent(id) => id == p@.id,
        StorageAction::BlobExists(k) => k@ == p@.backup_key || k@ == p@.target_key,
        StorageAction::FindResource(id) => id == p@.resource_id,
        StorageAction::Finish(_) => true,
        _ => false,
    }
}

/// What one step of committing a staged replacement answers to each event.
pub open spec fn commit_transition(
    replacement: ResourceContentReplacement,
    desired: Resource,
    staged_size: u64,
    state: ReplacementCommit,
    event: RecoveryEvent,
    r: (ReplacementCommit, StorageAction),
) -> bool {
    match (state, event) {
        (ReplacementCommit::Start, _) => r.0 is AwaitFind && r.1 is FindResource,
        (ReplacementCommit::AwaitFind, RecoveryEvent::ResourceFound(Some(found))) => if located_key(
            found@,
        ) == replacement@.target_key && found@.0.revision == replacement@.expected_revision {
            r.0 is AwaitIntentSave && r.1 is SaveReplacementIntent
        } else {
            r.0 == ReplacementCommit::AwaitBestEffortDiscard {
                outcome: Err(stale_resource(replacement@.resource_id)),
                then_remove_intent: false,
            } && r.1 is DiscardStaged
        },
        (ReplacementCommit::AwaitFind, RecoveryEvent::ResourceFound(None)) => r.0
            == ReplacementCommit::AwaitBestEffortDiscard {
            outcome: Err(stale_resource(replacement@.resource_id)),
            then_remove_intent: false,
        } && r.1 is DiscardStaged,
        (ReplacementCommit::AwaitFind, RecoveryEvent::Failed(e))
        | (ReplacementCommit::AwaitIntentSave, RecoveryEvent::Failed(e)) => r.0
            == ReplacementCommit::AwaitBestEffortDiscard {
            outcome: Err(e),
            then_remove_intent: false,
        } && r.1 is DiscardStaged,
        (ReplacementCommit::AwaitIntentSave, RecoveryEvent::Completed) => r.0 is AwaitBackupMove
            && (r.1 matches StorageAction::MoveIfAbsent { from, to } && from@
            == replacement@.target_key && to@ == replacement@.backup_key),
        (ReplacementCommit::AwaitBackupMove, RecoveryEvent::Failed(e)) => r.0
            == ReplacementCommit::AwaitBestEffortDiscard {
            outcome: Err(e),
            then_remove_intent: true,
        } && r.1 is DiscardStaged,
        (ReplacementCommit::AwaitBackupMove, RecoveryEvent::Completed) => r.0 is AwaitPublish
            && (r.1 matches StorageAction::PublishStaged { staged, size, to } && staged@
            == replacement@.staged_key && size == staged_size && to@ == replacement@.target_key),
        (ReplacementCommit::AwaitPublish, RecoveryEvent::Failed(e)) => r.0
            == ReplacementCommit::AwaitPublishRestore { error: e } && (r.1 matches StorageAction::MoveIfAbsent {
            from,
            to,
        } && from@ == replacement@.backup_key && to@ == replacement@.target_key),
        (ReplacementCommit::AwaitPublish, RecoveryEvent::Completed) => r.0 is AwaitCas
            && (r.1 matches StorageAction::UpdateIfRevision { desired: d, expected_revision } && d@
            == desired@ && expected_revision == replacement@.expected_revision),
        (ReplacementCommit::AwaitPublishRestore { error }, RecoveryEvent::Failed(re)) => r.0
            == ReplacementCommit::AwaitBestEffortDiscard {
            outcome: Err(publish_rollback_failure(re)),
            then_remove_intent: false,
        } && r.1 is DiscardStaged,
        (ReplacementCommit::AwaitPublishRestore { error }, RecoveryEvent::Completed) => r.0
            == ReplacementCommit::AwaitBestEffortDiscard {
            outcome: Err(error),
            then_remove_intent: true,
        } && r.1 is DiscardStaged,
        (ReplacementCommit::AwaitCas, RecoveryEvent::CasApplied(true)) => r.0 is AwaitBackupDeletion
            && (r.1 matches StorageAction::DeleteBlob(k) && k@ == replacement@.backup_key),
        (ReplacementCommit::AwaitCas, RecoveryEvent::CasApplied(false)) => r.0
            == ReplacementCommit::AwaitRollbackBackupPresence {
            error: stale_resource(replacement@.resource_id),
        } && r.1 is BlobExists,
        (ReplacementCommit::AwaitCas, RecoveryEvent::Failed(e)) => r.0
            == ReplacementCommit::AwaitRollbackBackupPresence { error: e } && r.1 is BlobExists,
        (ReplacementCommit::AwaitBackupDeletion, RecoveryEvent::Completed) => r.0 is AwaitCommittedDiscard
            && r.1 is DiscardStaged,
        (ReplacementCommit::AwaitCommittedDiscard, RecoveryEvent::Completed) => r.0 is AwaitCommittedIntentRemoval
            && r.1 == StorageAction::RemoveReplacementIntent(replacement@.id),
        (ReplacementCommit::AwaitCommittedIntentRemoval, RecoveryEvent::Completed) => r.0 is Finished
            && r.1 == StorageAction::Finish(Ok(())),
        (ReplacementCommit::AwaitBackupDeletion, RecoveryEvent::Failed(e))
        | (ReplacementCommit::AwaitCommittedDiscard, RecoveryEvent::Failed(e))
        | (ReplacementCommit::AwaitCommittedIntentRemoval, RecoveryEvent::Failed(e)) => r.0 is Finished
            && r.1 == StorageAction::Finish(Err(e)),
        (ReplacementCommit::AwaitRollbackBackupPresence { .. }, RecoveryEvent::Failed(e))
        | (ReplacementCommit::AwaitRollbackTargetDeletion { .. }, RecoveryEvent::Failed(e))
        | (ReplacementCommit::AwaitRollbackRestore { .. }, RecoveryEvent::Failed(e))
        | (ReplacementCommit::AwaitRollbackTargetPresence { .. }, RecoveryEvent::Failed(e))
        | (ReplacementCommit::AwaitRollbackDiscard { .. }, RecoveryEvent::Failed(e))
        | (ReplacementCommit::AwaitRollbackIntentRemoval { .. }, RecoveryEvent::Failed(e)) => r.0 is Finished
            && r.1 == StorageAction::Finish(Err(rollback_failure(e))),
        (
            ReplacementCommit::AwaitRollbackBackupPresence { error },
            RecoveryEvent::BlobPresence(b),
        ) => if b {
            r.0 == ReplacementCommit::AwaitRollbackTargetDeletion { error } && (r.1 matches StorageAction::DeleteBlob(
                k,
            ) && k@ == replacement@.target_key)
        } else {
            r.0 == ReplacementCommit::AwaitRollbackTargetPresence { error } && r.1 is BlobExists
        },
        (ReplacementCommit::AwaitRollbackTargetDeletion { error }, RecoveryEvent::Completed) => r.0
            == ReplacementCommit::AwaitRollbackRestore { error } && (r.1 matches StorageAction::MoveIfAbsent {
            from,
            to,
        } && from@ == replacement@.backup_key && to@ == replacement@.target_key),
        (ReplacementCommit::AwaitRollbackRestore { error }, RecoveryEvent::Completed) => r.0
            == ReplacementCommit::AwaitRollbackDiscard { error } && r.1 is DiscardStaged,
        (
            ReplacementCommit::AwaitRollbackTargetPresence { error },
            RecoveryEvent::BlobPresence(b),
        ) => if b {
            r.0 == ReplacementCommit::AwaitRollbackDiscard { error } && r.1 is DiscardStaged
        } else {
            r.0 is Finished && r.1 == StorageAction::Finish(
                Err(rollback_failure(CoreError::Invariant(Invariant::ReplacementMissingBlobs))),
            )
        },
        (ReplacementCommit::AwaitRollbackDiscard { error }, RecoveryEvent::Completed) => r.0
            == ReplacementCommit::AwaitRollbackIntentRemoval { error } && r.1
            == StorageAction::RemoveReplacementIntent(replacement@.id),
        (ReplacementCommit::AwaitRollbackIntentRemoval { error }, RecoveryEvent::Completed) => r.0 is Finished
            && r.1 == StorageAction::Finish(Err(error)),
        (
            ReplacementCommit::AwaitBestEffortDiscard { outcome, then_remove_intent },
            RecoveryEvent::Completed,
        )
        | (
            ReplacementCommit::AwaitBestEffortDiscard { outcome, then_remove_intent },
            RecoveryEvent::Failed(_),
        ) => if then_remove_intent {
            r.0 == ReplacementCommit::AwaitBestEffortIntentRemoval { outcome } && r.1
                == StorageAction::RemoveReplacementIntent(replacement@.id)
        } else {
            r.0 is Finished && r.1 == StorageAction::Finish(outcome)
        },
        (ReplacementCommit::AwaitBestEffortIntentRemoval { outcome }, RecoveryEvent::Completed)
        | (ReplacementCommit::AwaitBestEffortIntentRemoval { outcome }, RecoveryEvent::Failed(_)) => r.0 is Finished
            && r.1 == StorageAction::Finish(outcome),
        _ => r.0 is Finished && r.1 == StorageAction::Finish(Err(unexpected_event())),
    }
}

/// A commit reports success only after the new content is in place and recorded: in a run from
/// the start that ends in `Finish(Ok(()))`, the Resource was found at the target key with the
/// expected revision, the intent was saved, the current Blob was moved to the backup key, the
/// staged content of the staged size was published at the target key, the store applied the
/// write of the desired Resource guarded by the expected revision, and then the backup was
/// deleted, the staged content discarded and the intent removed.
pub proof fn lemma_commit_success_published_and_wrote(
    replacement: ResourceContentReplacement,
    desired: Resource,
    staged_size: u64,
    states: Seq<ReplacementCommit>,
    events: Seq<RecoveryEvent>,
    actions: Seq<StorageAction>,
)
    requires
        states.len() == actions.len() + 1,
        events.len() == actions.len(),
        actions.len() > 0,
        states[0] is Start,
        forall|i: int|
            0 <= i < actions.len() ==> #[trigger] commit_run_step(replacement, desired, staged_size, states, events, actions, i),
        actions.last() == StorageAction::Finish(Ok(())),
    ensures
        ({
            let v = replacement@;
            &&& actions.len() == 9
            &&& events[8] == RecoveryEvent::Completed
            &&& actions[7] == StorageAction::RemoveReplacementIntent(v.id)
            &&& events[7] == RecoveryEvent::Completed
            &&& actions[6] is DiscardStaged
            &&& events[6] == RecoveryEvent::Completed
            &&& actions[5] matches StorageAction::DeleteBlob(k) && k@ == v.backup_key
            &&& events[5] == RecoveryEvent::CasApplied(true)
            &&& actions[4] matches StorageAction::UpdateIfRevision { desired: d, expected_revision }
                && d@ == desired@ && expected_revision == v.expected_revision
            &&& events[4] == RecoveryEvent::Completed
            &&& actions[3] matches StorageAction::PublishStaged { staged, size, to } && staged@
                == v.staged_key && size == staged_size && to@ == v.target_key
            &&& events[3] == RecoveryEvent::Completed
            &&& actions[2] matches StorageAction::MoveIfAbsent { from, to } && from@ == v.target_key
                && to@ == v.backup_key
            &&& events[2] == RecoveryEvent::Completed
            &&& events[1] matches RecoveryEvent::ResourceFound(Some(found)) && located_key(found@)
                == v.target_key && found@.0.revision == v.expected_revision
        }),
{
    let n = actions.len() as int;
    assert(commit_run_step(replacement, desired, staged_size, states, events, actions, n - 1));
    assert(n - 1 != 0);
    assert(commit_run_step(replacement, desired, staged_size, states, events, actions, n - 2));
    assert(n - 2 != 0);
    if states[n - 1] is AwaitCommittedIntentRemoval {
        assert(commit_run_step(replacement, desired, staged_size, states, events, actions, n - 3));
        assert(commit_run_step(replacement, desired, staged_size, states, events, actions, n - 4));
        assert(commit_run_step(replacement, desired, staged_size, states, events, actions, n - 5));
        assert(commit_run_step(replacement, desired, staged_size, states, events, actions, n - 6));
        assert(commit_run_step(replacement, desired, staged_size, states, events, actions, n - 7));
        assert(commit_run_step(replacement, desired, staged_size, states, events, actions, n - 8));
        assert(commit_run_step(replacement, desired, staged_size, states, events, actions, n - 9));
        if n - 9 != 0 {
            assert(commit_run_step(replacement, desired, staged_size, states, events, actions, n - 10));
        }
    } else if states[n - 1] is AwaitBestEffortIntentRemoval {
        assert(commit_run_step(replacement, desired, staged_size, states, events, actions, n - 3));
    }
}

/// Step `i` of a recorded run of a replacement commit is one that `replacement_commit_step` can
/// take.
pub open spec fn commit_run_step(
    replacement: ResourceContentReplacement,
    desired: Resource,
    staged_size: u64,
    states: Seq<ReplacementCommit>,
    events: Seq<RecoveryEvent>,
    actions: Seq<StorageAction>,
    i: int,
) -> bool {
    &&& commit_transition(replacement, desired, staged_size, states[i], events[i], (states[i + 1], actions[i]))
    &&& commit_action_safe(replacement, desired, states[i], events[i], actions[i])
}

/// A commit whose guarded write was refused (or failed) after the new content was published
/// puts the previous Blob back before it reports the error: in a run from the start whose
/// rollback removed the intent, the run reports the error and either deleted the published
/// Blob at the target key and then moved the backup back to the target key, or found no backup
/// while the target key still held a Blob; in both cases the staged content was then discarded
/// and the intent removed.
pub proof fn lemma_commit_rollback_restores_the_target(
    replacement: ResourceContentReplacement,
    desired: Resource,
    staged_size: u64,
    states: Seq<ReplacementCommit>,
    events: Seq<RecoveryEvent>,
    actions: Seq<StorageAction>,
)
    requires
        states.len() == actions.len() + 1,
        events.len() == actions.len(),
        actions.len() > 0,
        states[0] is Start,
        forall|i: int|
            0 <= i < actions.len() ==> #[trigger] commit_run_step(replacement, desired, staged_size, states, events, actions, i),
        states[actions.len() - 1] is AwaitRollbackIntentRemoval,
        events.last() == RecoveryEvent::Completed,
    ensures
        ({
            let n = actions.len() as int;
            let v = replacement@;
            &&& n >= 7
            &&& actions[n - 1] == StorageAction::Finish(Err(states[n - 1]->AwaitRollbackIntentRemoval_error))
            &&& actions[n - 2] == StorageAction::RemoveReplacementIntent(v.id)
            &&& events[n - 2] == RecoveryEvent::Completed
            &&& actions[n - 3] is DiscardStaged
            &&& {
                ||| events[n - 3] == RecoveryEvent::Completed && (actions[n
                    - 4] matches StorageAction::MoveIfAbsent { from, to } && from@ == v.backup_key
                    && to@ == v.target_key) && events[n - 4] == RecoveryEvent::Completed && (actions[n
                    - 5] matches StorageAction::DeleteBlob(k) && k@ == v.target_key) && events[n - 5]
                    == RecoveryEvent::BlobPresence(true)
                ||| events[n - 3] == RecoveryEvent::BlobPresence(true) && events[n - 4]
                    == RecoveryEvent::BlobPresence(false)
            }
        }),
{
    let n = actions.len() as int;
    assert(commit_run_step(replacement, desired, staged_size, states, events, actions, n - 1));
    assert(n - 1 != 0);
    assert(commit_run_step(replacement, desired, staged_size, states, events, actions, n - 2));
    assert(n - 2 != 0);
    assert(commit_run_step(replacement, desired, staged_size, states, events, actions, n - 3));
    assert(n - 3 != 0);
    assert(commit_run_step(replacement, desired, staged_size, states, events, actions, n - 4));
    assert(n - 4 != 0);
    assert(commit_run_step(replacement, desired, staged_size, states, events, actions, n - 5));
    assert(n - 5 != 0);
    if states[n - 3] is AwaitRollbackRestore {
        assert(commit_run_step(replacement, desired, staged_size, states, events, actions, n - 6));
        assert(n - 6 != 0);
        assert(commit_run_step(replacement, desired, staged_size, states, events, actions, n - 7));
    } else {
        assert(commit_run_step(replacement, desired, staged_size, states, events, actions, n - 6));
    }
}

/// One step of committing staged replacement content for `desired` (the Resource with the
/// replacement content attached) as recorded in `replacement`.
pub fn replacement_commit_step(
    replacement: &ResourceContentReplacement,
    desired: &Resource,
    staged_size: u64,
    state: ReplacementCommit,
    event: RecoveryEvent,
) -> (r: (ReplacementCommit, StorageAction))
    ensures
        commit_action_safe(*replacement, *desired, state, event, r.1),
        commit_transition(*replacement, *desired, staged_size, state, event, r),
{
    let id = replacement.resource_id();
    let discard = || -> (a: StorageAction)
        ensures
            a matches StorageAction::DiscardStaged { key, size } && key@ == replacement@.staged_key,
        { StorageAction::DiscardStaged { key: replacement.staged_key().clone(), size: staged_size } };
    let stale = || -> (e: CoreError)
        ensures
            e == stale_resource(replacement@.resource_id),
        { CoreError::RevisionConflict { subject: crate::error::Subject::Resource, id: id.0 } };
    let restore = || -> (a: StorageAction)
        ensures
            a matches StorageAction::MoveIfAbsent { from, to } && from@ == replacement@.backup_key
                && to@ == replacement@.target_key,
        {
            StorageAction::MoveIfAbsent {
                from: replacement.backup_key().clone(),
                to: replacement.target_key().clone(),
            }
        };
    let remove = StorageAction::RemoveReplacementIntent(replacement.id());
    match (state, event) {
        (ReplacementCommit::Start, _) => (ReplacementCommit::AwaitFind, StorageAction::FindResource(id)),
        (ReplacementCommit::AwaitFind, RecoveryEvent::ResourceFound(Some(found))) => {
            let current_key = match found.storage_key() {
                Ok(k) => k,
                Err(e) => {
                    return (
                        ReplacementCommit::AwaitBestEffortDiscard {
                            outcome: Err(e),
                            then_remove_intent: false,
                        },
                        discard(),
                    );
                },
            };
            if found.resource().revision() != replacement.expected_revision()
                || !current_key.same_as(replacement.target_key()) {
                (
                    ReplacementCommit::AwaitBestEffortDiscard {
                        outcome: Err(stale()),
                        then_remove_intent: false,
                    },
                    discard(),
                )
            } else {
                (
                    ReplacementCommit::AwaitIntentSave,
                    StorageAction::SaveReplacementIntent(replacement.clone()),
                )
            }
        },
        (ReplacementCommit::AwaitFind, RecoveryEvent::ResourceFound(None)) => (
            ReplacementCommit::AwaitBestEffortDiscard {
                outcome: Err(stale()),
                then_remove_intent: false,
            },
            discard(),
        ),
        (ReplacementCommit::AwaitFind, RecoveryEvent::Failed(e))
        | (ReplacementCommit::AwaitIntentSave, RecoveryEvent::Failed(e)) => (
            ReplacementCommit::AwaitBestEffortDiscard { outcome: Err(e), then_remove_intent: false },
            discard(),
        ),
        (ReplacementCommit::AwaitIntentSave, RecoveryEvent::Completed) => (
            ReplacementCommit::AwaitBackupMove,
            StorageAction::MoveIfAbsent {
                from: replacement.target_key().clone(),
                to: replacement.backup_key().clone(),
            },
        ),
        (ReplacementCommit::AwaitBackupMove, RecoveryEvent::Failed(e)) => (
            ReplacementCommit::AwaitBestEffortDiscard { outcome: Err(e), then_remove_intent: true },
            discard(),
        ),
        (ReplacementCommit::AwaitBackupMove, RecoveryEvent::Completed) => (
            ReplacementCommit::AwaitPublish,
            StorageAction::PublishStaged {
                staged: replacement.staged_key().clone(),
                size: staged_size,
                to: replacement.target_key().clone(),
            },
        ),
        (ReplacementCommit::AwaitPublish, RecoveryEvent::Failed(e)) => (
            ReplacementCommit::AwaitPublishRestore { error: e },
            restore(),
        ),
        (ReplacementCommit::AwaitPublish, RecoveryEvent::Completed) => (
            ReplacementCommit::AwaitCas,
            StorageAction::UpdateIfRevision {
                desired: desired.clone(),
                expected_revision: replacement.expected_revision(),
            },
        ),
        (ReplacementCommit::AwaitPublishRestore { error }, RecoveryEvent::Failed(re)) => (
            ReplacementCommit::AwaitBestEffortDiscard {
                outcome: Err(
                    CoreError::Storage {
                        operation: StorageOperation::ContentReplacePublishRollback,
                        source: Box::new(re),
                    },
                ),
                then_remove_intent: false,
            },
            discard(),
        ),
        (ReplacementCommit::AwaitPublishRestore { error }, RecoveryEvent::Completed) => (
            ReplacementCommit::AwaitBestEffortDiscard {
                outcome: Err(error),
                then_remove_intent: true,
            },
            discard(),
        ),
        (ReplacementCommit::AwaitCas, RecoveryEvent::CasApplied(applied)) => {
            if applied {
                (
                    ReplacementCommit::AwaitBackupDeletion,
                    StorageAction::DeleteBlob(replacement.backup_key().clone()),
                )
            } else {
                (
                    ReplacementCommit::AwaitRollbackBackupPresence { error: stale() },
                    StorageAction::BlobExists(replacement.backup_key().clone()),
                )
            }
        },
        (ReplacementCommit::AwaitCas, RecoveryEvent::Failed(e)) => (
            ReplacementCommit::AwaitRollbackBackupPresence { error: e },
            StorageAction::BlobExists(replacement.backup_key().clone()),
        ),
        (ReplacementCommit::AwaitBackupDeletion, RecoveryEvent::Completed) => (
            ReplacementCommit::AwaitCommittedDiscard,
            discard(),
        ),
        (ReplacementCommit::AwaitCommittedDiscard, RecoveryEvent::Completed) => (
            ReplacementCommit::AwaitCommittedIntentRemoval,
            remove,
        ),
        (ReplacementCommit::AwaitCommittedIntentRemoval, RecoveryEvent::Completed) => (
            ReplacementCommit::Finished,
            StorageAction::Finish(Ok(())),
        ),
        (ReplacementCommit::AwaitBackupDeletion, RecoveryEvent::Failed(e))
        | (ReplacementCommit::AwaitCommittedDiscard, RecoveryEvent::Failed(e))
        | (ReplacementCommit::AwaitCommittedIntentRemoval, RecoveryEvent::Failed(e)) => (
            ReplacementCommit::Finished,
            StorageAction::Finish(Err(e)),
        ),
        (ReplacementCommit::AwaitRollbackBackupPresence { .. }, RecoveryEvent::Failed(e))
        | (ReplacementCommit::AwaitRollbackTargetDeletion { .. }, RecoveryEvent::Failed(e))
        | (ReplacementCommit::AwaitRollbackRestore { .. }, RecoveryEvent::Failed(e))
        | (ReplacementCommit::AwaitRollbackTargetPresence { .. }, RecoveryEvent::Failed(e))
        | (ReplacementCommit::AwaitRollbackDiscard { .. }, RecoveryEvent::Failed(e))
        | (ReplacementCommit::AwaitRollbackIntentRemoval { .. }, RecoveryEvent::Failed(e)) => (
            ReplacementCommit::Finished,
            StorageAction::Finish(
                Err(
                    CoreError::Storage {
                        operation: StorageOperation::ContentReplaceRollback,
                        source: Box::new(e),
                    },
                ),
            ),
        ),
        (
            ReplacementCommit::AwaitRollbackBackupPresence { error },
            RecoveryEvent::BlobPresence(b),
        ) => {
            if b {
                (
                    ReplacementCommit::AwaitRollbackTargetDeletion { error },
                    StorageAction::DeleteBlob(replacement.target_key().clone()),
                )
            } else {
                (
                    ReplacementCommit::AwaitRollbackTargetPresence { error },
                    StorageAction::BlobExists(replacement.target_key().clone()),
                )
            }
        },
        (ReplacementCommit::AwaitRollbackTargetDeletion { error }, RecoveryEvent::Completed) => (
            ReplacementCommit::AwaitRollbackRestore { error },
            restore(),
        ),
        (ReplacementCommit::AwaitRollbackRestore { error }, RecoveryEvent::Completed) => (
            ReplacementCommit::AwaitRollbackDiscard { error },
            discard(),
        ),
        (
            ReplacementCommit::AwaitRollbackTargetPresence { error },
            RecoveryEvent::BlobPresence(b),
        ) => {
            if b {
                (ReplacementCommit::AwaitRollbackDiscard { error }, discard())
            } else {
                (
                    ReplacementCommit::Finished,
                    StorageAction::Finish(
                        Err(
                            CoreError::Storage {
                                operation: StorageOperation::ContentReplaceRollback,
                                source: Box::new(
                                    CoreError::Invariant(Invariant::ReplacementMissingBlobs),
                                ),
                            },
                        ),
                    ),
                )
            }
        },
        (ReplacementCommit::AwaitRollbackDiscard { error }, RecoveryEvent::Completed) => (
            ReplacementCommit::AwaitRollbackIntentRemoval { error },
            remove,
        ),
        (ReplacementCommit::AwaitRollbackIntentRemoval { error }, RecoveryEvent::Completed) => (
            ReplacementCommit::Finished,
            StorageAction::Finish(Err(error)),
        ),
        (
            ReplacementCommit::AwaitBestEffortDiscard { outcome, then_remove_intent },
            RecoveryEvent::Completed,
        )
        | (
            ReplacementCommit::AwaitBestEffortDiscard { outcome, then_remove_intent },
            RecoveryEvent::Failed(_),
        ) => {
            if then_remove_intent {
                (ReplacementCommit::AwaitBestEffortIntentRemoval { outcome }, remove)
            } else {
                (ReplacementCommit::Finished, StorageAction::Finish(outcome))
            }
        },
        (ReplacementCommit::AwaitBestEffortIntentRemoval { outcome }, RecoveryEvent::Completed)
        | (ReplacementCommit::AwaitBestEffortIntentRemoval { outcome }, RecoveryEvent::Failed(_)) => (
            ReplacementCommit::Finished,
            StorageAction::Finish(outcome),
        ),
        _ => (
            ReplacementCommit::Finished,
            StorageAction::Finish(Err(CoreError::Invariant(Invariant::UnexpectedRecoveryEvent))),
        ),
    }
}

/// The capability name of actions that edit text content.
pub open spec fn text_edit() -> Seq<char> {
    seq!['t', 'e', 'x', 't', '_', 'e', 'd', 'i', 't']
}

/// Whether one of the capabilities the Resource's available actions provide is text editing.
pub fn provides_text_edit(capabilities: &Vec<String>) -> (r: bool)
    ensures
        r == exists|i: int| 0 <= i < capabilities@.len() && #[trigger] capabilities@[i]@ == text_edit(),
{
    let wanted = "text_edit";
    proof {
        reveal_strlit("text_edit");
        assert(wanted@ =~= text_edit());
    }
    let mut i: usize = 0;
    while i < capabilities.len()
        invariant
            i <= capabilities@.len(),
            wanted@ == text_edit(),
            forall|j: int| 0 <= j < i ==> #[trigger] capabilities@[j]@ != text_edit(),
        decreases capabilities@.len() - i,
    {
        if crate::text::str_eq(capabilities[i].as_str(), wanted) {
            return true;
        }
        i = i + 1;
    }
    false
}

/// The keys of one content replacement: the visible key it replaces, and the internal staging
/// and backup keys named by a fresh replacement identity.
#[derive(Debug)]
pub struct ReplacementKeys {
    pub target_key: StorageKey,
    pub replacement_id: ResourceContentReplacementId,
    pub staging_key: StorageKey,
    pub backup_key: StorageKey,
}

/// Check a request to replace a Resource's text content and name its keys.
///
/// The command must target the current revision; the Resource must already have content and an
/// available action providing text editing; the declared size must fit the text limit.
pub fn begin_content_replacement(
    located: &LocatedResource,
    command: &ReplaceResourceContent,
    capabilities: &Vec<String>,
    max_text_bytes: u64,
) -> (r: Result<ReplacementKeys, CoreError>)
    ensures
        ({
            let cur = located@.0;
            let editable = exists|i: int|
                0 <= i < capabilities@.len() && #[trigger] capabilities@[i]@ == text_edit();
            match r {
                Err(e) => if cur.revision != command.expected_revision {
                    e == stale_resource(cur.id)
                } else if cur.content is None {
                    e == CoreError::InvalidOperation(InvalidOperation::ReplacementRequiresExistingContent)
                } else if !editable {
                    e == CoreError::InvalidOperation(InvalidOperation::NotAvailableForTextEditing)
                } else {
                    command.expected_size > max_text_bytes && e == (CoreError::LimitExceeded {
                        subject: LimitSubject::ResourceTextContent,
                        limit: max_text_bytes,
                        actual: command.expected_size,
                    })
                },
                Ok(k) => cur.revision == command.expected_revision && cur.content is Some && editable
                    && command.expected_size <= max_text_bytes && k.target_key@ == located_key(
                    located@,
                ) && k.staging_key@ == replacement_staging_base() + uuid_text(k.replacement_id.0)
                    && k.backup_key@ == slash_join(backup_dir(), uuid_text(k.replacement_id.0)),
            }
        }),
{
    let resource = located.resource();
    if resource.revision() != command.expected_revision {
        return Err(stale_replacement(resource));
    }
    if resource.content().is_none() {
        return Err(CoreError::InvalidOperation(InvalidOperation::ReplacementRequiresExistingContent));
    }
    if !provides_text_edit(capabilities) {
        return Err(CoreError::InvalidOperation(InvalidOperation::NotAvailableForTextEditing));
    }
    if command.expected_size > max_text_bytes {
        return Err(
            CoreError::LimitExceeded {
                subject: LimitSubject::ResourceTextContent,
                limit: max_text_bytes,
                actual: command.expected_size,
            },
        );
    }
    let target_key = located.storage_key()?;
    let replacement_id = ResourceContentReplacementId::new();
    let backup_key = replacement_backup_key(replacement_id)?;
    let staging_key = replacement_staging_key(replacement_id)?;
    Ok(ReplacementKeys { target_key, replacement_id, staging_key, backup_key })
}

/// Phases of staging replacement content before it is committed.
#[derive(Debug)]
pub enum ReplacementStaging {
    Start,
    AwaitStagingCreated,
    AwaitStaged,
    AwaitFailureDiscard { error: CoreError },
    AwaitCommit { desired: Resource },
    Finished,
}

/// Safety of staging replacement content: only content of exactly the declared size and
/// checksum is committed, and only for the located Resource at the expected revision.
pub open spec fn staging_safe(
    located: LocatedResource,
    command: ReplaceResourceContent,
    keys: ReplacementKeys,
    state: ReplacementStaging,
    event: RecoveryEvent,
    a: StorageAction,
) -> bool {
    match a {
        StorageAction::RunReplacementCommit { replacement, desired, staged_size } => state is AwaitStaged
            && (event matches RecoveryEvent::ContentStaged { bytes_written, checksum }
            && bytes_written == command.expected_size && checksum@ == command.expected_checksum@)
            && staged_size == command.expected_size && replacement@.resource_id == located@.0.id
            && replacement@.expected_revision == located@.0.revision && replacement@.target_key
            == keys.target_key@ && replacement@.staged_key == keys.staging_key@
            && replacement@.backup_key == keys.backup_key@ && (replacement@.replacement_content.checksum
            == Some(command.expected_checksum@)) && replacement@.replacement_content.size
            == command.expected_size && desired@.content == Some(replacement@.replacement_content),
        StorageAction::DiscardStaged { key, .. } => key@ == keys.staging_key@,
        StorageAction::CreateStaged(k) => k@ == keys.staging_key@,
        StorageAction::StageContent { key, .. } => key@ == keys.staging_key@,
        StorageAction::ReturnResource(_) => true,
        StorageAction::Finish(_) => true,
        _ => false,
    }
}

/// The verified content a text replacement records: the declared size and checksum, and the
/// command's MIME type or else the current one.
pub open spec fn replacement_text_content(located: LocatedResource, command: ReplaceResourceContent) -> ResourceContentView {
    ResourceContentView {
        size: command.expected_size,
        checksum: Some(command.expected_checksum@),
        mime_type: match opt_text(command.mime_type) {
            Some(m) => Some(m),
            None => match located@.0.content {
                Some(c) => c.mime_type,
                None => None,
            },
        },
        status: ContentVerificationStatus::Verified,
        verification_error: None,
        modified_at: None,
    }
}

/// The Resource after its content is replaced: the new content, one revision later.
pub open spec fn with_replaced_content(cur: ResourceView, content: ResourceContentView) -> ResourceView {
    ResourceView { content: Some(content), revision: (cur.revision + 1) as u64, ..cur }
}

/// A replacement awaiting its commit carries the located Resource with the new content, one
/// revision later.
pub open spec fn staging_wf(located: LocatedResource, command: ReplaceResourceContent, state: ReplacementStaging) -> bool {
    state matches ReplacementStaging::AwaitCommit { desired } ==> desired@ == with_replaced_content(
        located@.0,
        replacement_text_content(located, command),
    )
}

fn staging_end(e: CoreError) -> (r: (ReplacementStaging, StorageAction))
    ensures
        r.0 is Finished && r.1 == StorageAction::Finish(Err(e)),
{
    (ReplacementStaging::Finished, StorageAction::Finish(Err(e)))
}

/// One step of staging replacement text content for a located Resource.
///
/// The content is streamed into the staging key, limited to the declared size and the text
/// limit. It must have exactly the declared size and checksum, otherwise the staged Blob is
/// discarded. The verified content keeps the current MIME type unless the command names one; it
/// is attached to the Resource and committed through the replacement workflow, which answers
/// with the updated Resource.
pub fn replacement_staging_step(
    located: &LocatedResource,
    command: &ReplaceResourceContent,
    max_text_bytes: u64,
    keys: &ReplacementKeys,
    state: ReplacementStaging,
    event: RecoveryEvent,
) -> (r: (ReplacementStaging, StorageAction))
    requires
        staging_wf(*located, *command, state),
    ensures
        staging_wf(*located, *command, r.0),
        staging_safe(*located, *command, *keys, state, event, r.1),
        match (state, event) {
            (ReplacementStaging::Start, _) => r.0 is AwaitStagingCreated && (r.1 matches StorageAction::CreateStaged(
                k,
            ) && k@ == keys.staging_key@),
            (ReplacementStaging::AwaitStagingCreated, RecoveryEvent::Completed) => r.0 is AwaitStaged
                && (r.1 matches StorageAction::StageContent { key, expected_size, max_size } && key@
                == keys.staging_key@ && expected_size == command.expected_size && max_size
                == max_text_bytes),
            (ReplacementStaging::AwaitStaged, RecoveryEvent::ContentStaged { bytes_written, checksum }) => if bytes_written
                != command.expected_size {
                r.0 == (ReplacementStaging::AwaitFailureDiscard {
                    error: CoreError::Conflict(Conflict::ContentSizeMismatch),
                }) && r.1 is DiscardStaged
            } else if checksum@ != command.expected_checksum@ {
                r.0 == (ReplacementStaging::AwaitFailureDiscard {
                    error: CoreError::Conflict(Conflict::ContentChecksumMismatch),
                }) && r.1 is DiscardStaged
            } else if located@.0.revision < u64::MAX {
                r.0 is AwaitCommit && (r.1 matches StorageAction::RunReplacementCommit { desired, .. }
                    && desired@ == with_replaced_content(
                    located@.0,
                    replacement_text_content(*located, *command),
                ))
            } else {
                r.0 == (ReplacementStaging::AwaitFailureDiscard {
                    error: CoreError::Invariant(Invariant::RevisionOverflow),
                }) && r.1 is DiscardStaged
            },
            (ReplacementStaging::AwaitStaged, RecoveryEvent::Failed(e)) => r.0
                == (ReplacementStaging::AwaitFailureDiscard { error: e }) && r.1 is DiscardStaged,
            (ReplacementStaging::AwaitFailureDiscard { error }, _) => r.0 is Finished && r.1
                == StorageAction::Finish(Err(error)),
            (ReplacementStaging::AwaitCommit { desired }, RecoveryEvent::Completed) => r.0 is Finished
                && (r.1 matches StorageAction::ReturnResource(x) && x@ == desired@ && x@
                == with_replaced_content(located@.0, replacement_text_content(*located, *command))),
            (_, RecoveryEvent::Failed(e)) => r.0 is Finished && r.1 == StorageAction::Finish(
                Err(e),
            ),
            _ => r.0 is Finished && r.1 == StorageAction::Finish(Err(unexpected_event())),
        },
{
    match state {
        ReplacementStaging::Start => (
            ReplacementStaging::AwaitStagingCreated,
            StorageAction::CreateStaged(keys.staging_key.clone()),
        ),
        ReplacementStaging::AwaitStagingCreated => match event {
            RecoveryEvent::Completed => (
                ReplacementStaging::AwaitStaged,
                StorageAction::StageContent {
                    key: keys.staging_key.clone(),
                    expected_size: command.expected_size,
                    max_size: max_text_bytes,
                },
            ),
            RecoveryEvent::Failed(e) => staging_end(e),
            _ => staging_end(crate::resource::recovery::unexpected()),
        },
        ReplacementStaging::AwaitStaged => match event {
            RecoveryEvent::ContentStaged { bytes_written, checksum } => {
                let discard = StorageAction::DiscardStaged {
                    key: keys.staging_key.clone(),
                    size: bytes_written,
                };
                if bytes_written != command.expected_size {
                    return (
                        ReplacementStaging::AwaitFailureDiscard {
                            error: CoreError::Conflict(Conflict::ContentSizeMismatch),
                        },
                        discard,
                    );
                }
                if !checksum.same_as(&command.expected_checksum) {
                    return (
                        ReplacementStaging::AwaitFailureDiscard {
                            error: CoreError::Conflict(Conflict::ContentChecksumMismatch),
                        },
                        discard,
                    );
                }
                let mime_type = match &command.mime_type {
                    Some(m) => Some(m.clone()),
                    None => match located.resource().content() {
                        Some(c) => match c.mime_type() {
                            Some(m) => Some(m.to_owned()),
                            None => None,
                        },
                        None => None,
                    },
                };
                let content = ResourceContent::verified(bytes_written, checksum, mime_type, None);
                let mut desired = located.resource().clone();
                match prepare_replacement_commit(
                    &mut desired,
                    keys.target_key.clone(),
                    keys.staging_key.clone(),
                    keys.replacement_id,
                    keys.backup_key.clone(),
                    content,
                ) {
                    Ok(replacement) => {
                        let committed = desired.clone();
                        (
                            ReplacementStaging::AwaitCommit { desired },
                            StorageAction::RunReplacementCommit {
                                replacement,
                                desired: committed,
                                staged_size: bytes_written,
                            },
                        )
                    },
                    Err(error) => (ReplacementStaging::AwaitFailureDiscard { error }, discard),
                }
            },
            RecoveryEvent::Failed(error) => (
                ReplacementStaging::AwaitFailureDiscard { error },
                StorageAction::DiscardStaged { key: keys.staging_key.clone(), size: 0 },
            ),
            _ => staging_end(crate::resource::recovery::unexpected()),
        },
        ReplacementStaging::AwaitFailureDiscard { error } => staging_end(error),
        ReplacementStaging::AwaitCommit { desired } => match event {
            RecoveryEvent::Completed => (
                ReplacementStaging::Finished,
                StorageAction::ReturnResource(desired),
            ),
            RecoveryEvent::Failed(e) => staging_end(e),
            _ => staging_end(crate::resource::recovery::unexpected()),
        },
        ReplacementStaging::Finished => match event {
            RecoveryEvent::Failed(e) => staging_end(e),
            _ => staging_end(crate::resource::recovery::unexpected()),
        },
    }
}

/// Name the internal keys of replacing the content at `target_key` by bytes held in memory.
pub fn bytes_replacement_keys(target_key: StorageKey) -> (r: Result<ReplacementKeys, CoreError>)
    ensures
        r matches Ok(k) && k.target_key@ == target_key@ && k.staging_key@
            == replacement_staging_base() + uuid_text(k.replacement_id.0) && k.backup_key@
            == slash_join(backup_dir(), uuid_text(k.replacement_id.0)),
{
    let replacement_id = ResourceContentReplacementId::new();
    let backup_key = replacement_backup_key(replacement_id)?;
    let staging_key = replacement_staging_key(replacement_id)?;
    Ok(ReplacementKeys { target_key, replacement_id, staging_key, backup_key })
}

/// One step of replacing a Resource's content by `data_len` bytes held in memory, described by
/// `content`: the bytes are staged, must all be written, and are committed through the
/// replacement workflow, which answers with the updated Resource.
pub fn bytes_replacement_step(
    resource: &Resource,
    keys: &ReplacementKeys,
    content: &ResourceContent,
    data_len: u64,
    state: ReplacementStaging,
    event: RecoveryEvent,
) -> (r: (ReplacementStaging, StorageAction))
    requires
        state matches ReplacementStaging::AwaitCommit { desired } ==> desired@ == with_replaced_content(
            resource@,
            content@,
        ),
    ensures
        r.0 matches ReplacementStaging::AwaitCommit { desired } ==> desired@ == with_replaced_content(
            resource@,
            content@,
        ),
        match r.1 {
            StorageAction::RunReplacementCommit { replacement, desired, staged_size } => staged_size
                == data_len && replacement@.resource_id == resource@.id
                && replacement@.expected_revision == resource@.revision && replacement@.target_key
                == keys.target_key@ && replacement@.staged_key == keys.staging_key@
                && replacement@.replacement_content == content@ && desired@.content == Some(content@),
            StorageAction::DiscardStaged { key, .. } => key@ == keys.staging_key@,
            StorageAction::CreateStaged(k) => k@ == keys.staging_key@,
            StorageAction::StageBytes(k) => k@ == keys.staging_key@,
            StorageAction::ReturnResource(_) => true,
            StorageAction::Finish(_) => true,
            _ => false,
        },
        match (state, event) {
            (ReplacementStaging::Start, _) => r.0 is AwaitStagingCreated && r.1 is CreateStaged,
            (ReplacementStaging::AwaitStagingCreated, RecoveryEvent::Completed) => r.0 is AwaitStaged
                && (r.1 matches StorageAction::StageBytes(k) && k@ == keys.staging_key@),
            (ReplacementStaging::AwaitStaged, RecoveryEvent::ContentStaged { bytes_written, .. }) => if bytes_written
                != data_len {
                r.0 == (ReplacementStaging::AwaitFailureDiscard {
                    error: CoreError::Conflict(Conflict::ContentSizeMismatch),
                }) && r.1 is DiscardStaged
            } else if resource@.revision < u64::MAX {
                r.0 is AwaitCommit && (r.1 matches StorageAction::RunReplacementCommit { desired, .. }
                    && desired@ == with_replaced_content(resource@, content@))
            } else {
                r.0 == (ReplacementStaging::AwaitFailureDiscard {
                    error: CoreError::Invariant(Invariant::RevisionOverflow),
                }) && r.1 is DiscardStaged
            },
            (ReplacementStaging::AwaitStaged, RecoveryEvent::Failed(e)) => r.0
                == (ReplacementStaging::AwaitFailureDiscard { error: e }) && r.1 is DiscardStaged,
            (ReplacementStaging::AwaitFailureDiscard { error }, _) => r.0 is Finished && r.1
                == StorageAction::Finish(Err(error)),
            (ReplacementStaging::AwaitCommit { desired }, RecoveryEvent::Completed) => r.0 is Finished
                && (r.1 matches StorageAction::ReturnResource(x) && x@ == desired@ && x@
                == with_replaced_content(resource@, content@)),
            (_, RecoveryEvent::Failed(e)) => r.0 is Finished && r.1 == StorageAction::Finish(
                Err(e),
            ),
            _ => r.0 is Finished && r.1 == StorageAction::Finish(Err(unexpected_event())),
        },
{
    match state {
        ReplacementStaging::Start => (
            ReplacementStaging::AwaitStagingCreated,
            StorageAction::CreateStaged(keys.staging_key.clone()),
        ),
        ReplacementStaging::AwaitStagingCreated => match event {
            RecoveryEvent::Completed => (
                ReplacementStaging::AwaitStaged,
                StorageAction::StageBytes(keys.staging_key.clone()),
            ),
            RecoveryEvent::Failed(e) => staging_end(e),
            _ => staging_end(crate::resource::recovery::unexpected()),
        },
        ReplacementStaging::AwaitStaged => match event {
            RecoveryEvent::ContentStaged { bytes_written, .. } => {
                let discard = StorageAction::DiscardStaged {
                    key: keys.staging_key.clone(),
                    size: bytes_written,
                };
                if bytes_written != data_len {
                    return (
                        ReplacementStaging::AwaitFailureDiscard {
                            error: CoreError::Conflict(Conflict::ContentSizeMismatch),
                        },
                        discard,
                    );
                }
                let mut desired = resource.clone();
                match prepare_replacement_commit(
                    &mut desired,
                    keys.target_key.clone(),
                    keys.staging_key.clone(),
                    keys.replacement_id,
                    keys.backup_key.clone(),
                    content.clone(),
                ) {
                    Ok(replacement) => {
                        let committed = desired.clone();
                        (
                            ReplacementStaging::AwaitCommit { desired },
                            StorageAction::RunReplacementCommit {
                                replacement,
                                desired: committed,
                                staged_size: bytes_written,
                            },
                        )
                    },
                    Err(error) => (ReplacementStaging::AwaitFailureDiscard { error }, discard),
                }
            },
            RecoveryEvent::Failed(error) => (
                ReplacementStaging::AwaitFailureDiscard { error },
                StorageAction::DiscardStaged { key: keys.staging_key.clone(), size: 0 },
            ),
            _ => staging_end(crate::resource::recovery::unexpected()),
        },
        ReplacementStaging::AwaitFailureDiscard { error } => staging_end(error),
        ReplacementStaging::AwaitCommit { desired } => match event {
            RecoveryEvent::Completed => (
                ReplacementStaging::Finished,
                StorageAction::ReturnResource(desired),
            ),
            RecoveryEvent::Failed(e) => staging_end(e),
            _ => staging_end(crate::resource::recovery::unexpected()),
        },
        ReplacementStaging::Finished => match event {
            RecoveryEvent::Failed(e) => staging_end(e),
            _ => staging_end(crate::resource::recovery::unexpected()),
        },
    }
}

/// What committing an uploaded replacement needs: the Resource to update, the keys, and the
/// verified content the upload carries.
pub struct UploadReplacementPlan {
    pub resource: Resource,
    pub target_key: StorageKey,
    pub replacement_id: ResourceContentReplacementId,
    pub backup_key: StorageKey,
    pub content: ResourceContent,
}

/// Check that a finished replacement upload may replace the content of the Resource it names
/// and plan the commit. `expected_revision` is the revision the session was opened against
/// (`None` for a session that creates a Resource) and `located` the Resource the read model
/// holds now. The new content has the session's declared size and MIME type and the checksum
/// computed over the staged upload.
pub fn plan_upload_replacement(
    session: &crate::resource::upload::UploadSession,
    expected_revision: Option<u64>,
    located: Option<LocatedResource>,
    checksum: Checksum,
) -> (r: Result<UploadReplacementPlan, CoreError>)
    ensures
        match r {
            Err(e) => match expected_revision {
                None => e == CoreError::Invariant(Invariant::ReplacementRequiresUpload),
                Some(rev) => match located {
                    None => e == (CoreError::NotFound {
                        subject: crate::error::Subject::Resource,
                        id: session@.resource_id.0,
                    }),
                    Some(l) => if l@.0.revision != rev {
                        e == stale_resource(l@.0.id)
                    } else {
                        l@.0.content is None && e == CoreError::InvalidOperation(
                            InvalidOperation::ReplacementRequiresExistingContent,
                        )
                    },
                },
            },
            Ok(p) => expected_revision matches Some(rev) && located matches Some(l) && l@.0.revision
                == rev && l@.0.content is Some && p.resource@ == l@.0 && p.target_key@ == located_key(
                l@,
            ) && p.backup_key@ == slash_join(backup_dir(), uuid_text(p.replacement_id.0))
                && p.content@ == (ResourceContentView {
                size: session@.expected_size,
                checksum: Some(checksum@),
                mime_type: session@.mime_type,
                status: ContentVerificationStatus::Verified,
                verification_error: None,
                modified_at: None,
            }),
        },
{
    let expected_revision = match expected_revision {
        Some(rev) => rev,
        None => return Err(CoreError::Invariant(Invariant::ReplacementRequiresUpload)),
    };
    let located = match located {
        Some(l) => l,
        None => return Err(
            CoreError::NotFound { subject: crate::error::Subject::Resource, id: session.resource_id().0 },
        ),
    };
    let target_key = match located.storage_key() {
        Ok(k) => k,
        Err(_) => vstd::pervasive::unreached(),
    };
    let resource = located.into_resource();
    if resource.revision() != expected_revision {
        return Err(stale_replacement(&resource));
    }
    if resource.content().is_none() {
        return Err(CoreError::InvalidOperation(InvalidOperation::ReplacementRequiresExistingContent));
    }
    let replacement_id = ResourceContentReplacementId::new();
    let backup_key = match replacement_backup_key(replacement_id) {
        Ok(k) => k,
        Err(_) => vstd::pervasive::unreached(),
    };
    let mime_type = match session.mime_type() {
        Some(m) => Some(m.to_owned()),
        None => None,
    };
    let content = ResourceContent::verified(session.expected_size(), checksum, mime_type, None);
    Ok(UploadReplacementPlan { resource, target_key, replacement_id, backup_key, content })
}

/// What streaming a Resource's content reads and announces: the visible key, the media type
/// and the length. A Resource without content has nothing to stream.
pub fn content_stream_plan(located: &LocatedResource) -> (r: Option<(StorageKey, String, u64)>)
    ensures
        match located@.0.content {
            None => r is None,
            Some(c) => r matches Some((key, media, length)) && key@ == located_key(located@)
                && media@ == (match c.mime_type {
                    Some(m) => m,
                    None => octet_stream(),
                }) && length == c.size,
        },
{
    let content = match located.resource().content() {
        Some(c) => c,
        None => return None,
    };
    let key = match located.storage_key() {
        Ok(k) => k,
        Err(_) => vstd::pervasive::unreached(),
    };
    Some((key, content_type_for_media(content), content.size()))
}

/// The media type announced for stored content: its MIME type, or `application/octet-stream`.
pub open spec fn announced_media_type(c: ResourceContentView) -> Seq<char> {
    match c.mime_type {
        Some(m) => m,
        None => octet_stream(),
    }
}

/// What the content reader answered.
pub enum ContentReadEvent<S> {
    /// No operation was performed yet.
    Started,
    /// The read model returned this located Resource.
    ResourceFound(Option<LocatedResource>),
    /// The reader opened the content at the key (the whole Blob, or the requested range), or
    /// found no Blob there.
    ContentOpened(Option<S>),
    /// The operation failed.
    Failed(CoreError),
}

/// The next operation of reading a Resource's content.
pub enum ContentReadAction<S> {
    /// Find the located Resource in the read model.
    FindResource(crate::domain::ids::ResourceId),
    /// Open the Blob at the visible key, for the whole content or the requested range.
    OpenContent(StorageKey),
    /// The read ended: the stream, or nothing for a missing Resource, content or Blob.
    Finish(Result<Option<crate::resource::contract::ResourceContentStream<S>>, CoreError>),
}

/// Phases of reading a Resource's content.
#[derive(Debug)]
pub enum ContentRead {
    Start,
    AwaitResource,
    AwaitContent { located: LocatedResource },
    Finished,
}

/// A Resource whose content is being opened has content.
pub open spec fn content_read_wf(state: ContentRead) -> bool {
    state matches ContentRead::AwaitContent { located } ==> located@.0.content is Some
}

/// What one step of streaming a Resource's content answers to each event.
pub open spec fn content_read_transition<S>(
    id: crate::domain::ids::ResourceId,
    state: ContentRead,
    event: ContentReadEvent<S>,
    r: (ContentRead, ContentReadAction<S>),
) -> bool {
    match (state, event) {
        (_, ContentReadEvent::Failed(e)) => r.0 is Finished && r.1 == ContentReadAction::<S>::Finish(Err(e)),
        (ContentRead::Start, _) => r.0 is AwaitResource && r.1 == ContentReadAction::<S>::FindResource(id),
        (ContentRead::AwaitResource, ContentReadEvent::ResourceFound(found)) => match found {
            None => r.0 is Finished && r.1 == ContentReadAction::<S>::Finish(Ok(None)),
            Some(l) => match l@.0.content {
                None => r.0 is Finished && r.1 == ContentReadAction::<S>::Finish(Ok(None)),
                Some(_) => r.0 == (ContentRead::AwaitContent { located: l }) && (r.1 matches ContentReadAction::OpenContent(
                    k,
                ) && k@ == located_key(l@)),
            },
        },
        (ContentRead::AwaitContent { located }, ContentReadEvent::ContentOpened(opened)) => r.0 is Finished
            && match opened {
            None => r.1 == ContentReadAction::<S>::Finish(Ok(None)),
            Some(z) => r.1 matches ContentReadAction::Finish(Ok(Some(stream))) && stream.spec_content()
                == z && stream.spec_content_type() == announced_media_type(located@.0.content->0)
                && stream.spec_content_length() == located@.0.content->0.size,
        },
        _ => r.0 is Finished && r.1 == ContentReadAction::<S>::Finish(Err(unexpected_event())),
    }
}

/// Step `i` of a recorded run of a content read is one that `content_read_step` can take.
pub open spec fn content_read_run_step<S>(
    id: crate::domain::ids::ResourceId,
    states: Seq<ContentRead>,
    events: Seq<ContentReadEvent<S>>,
    actions: Seq<ContentReadAction<S>>,
    i: int,
) -> bool {
    content_read_transition(id, states[i], events[i], (states[i + 1], actions[i]))
}

/// A content read that hands out a stream hands out exactly what the reader opened at the
/// Resource's visible key, announcing the content's media type (`application/octet-stream` when
/// none is recorded) and its full recorded size, also for a range: in a run from the start that
/// ends with a stream, the Resource was found with content, its visible key was opened, and the
/// stream carries the opened content unchanged.
pub proof fn lemma_stream_is_the_opened_content<S>(
    id: crate::domain::ids::ResourceId,
    states: Seq<ContentRead>,
    events: Seq<ContentReadEvent<S>>,
    actions: Seq<ContentReadAction<S>>,
)
    requires
        states.len() == actions.len() + 1,
        events.len() == actions.len(),
        actions.len() > 0,
        states[0] is Start,
        forall|i: int| 0 <= i < actions.len() ==> #[trigger] content_read_run_step(id, states, events, actions, i),
        actions.last() matches ContentReadAction::Finish(Ok(Some(_))),
    ensures
        actions.len() == 3,
        actions[0] == ContentReadAction::<S>::FindResource(id),
        events[1] matches ContentReadEvent::ResourceFound(Some(l)) && (l@.0.content matches Some(c)
            && (actions[1] matches ContentReadAction::OpenContent(k) && k@ == located_key(l@)) && (
        events[2] matches ContentReadEvent::ContentOpened(Some(z)) && (actions[2] matches ContentReadAction::Finish(
            Ok(Some(stream)),
        ) && stream.spec_content() == z && stream.spec_content_type() == announced_media_type(c)
            && stream.spec_content_length() == c.size))),
{
    let n = actions.len() as int;
    assert(content_read_run_step(id, states, events, actions, n - 1));
    assert(n - 1 != 0);
    assert(content_read_run_step(id, states, events, actions, n - 2));
    assert(n - 2 != 0);
    assert(content_read_run_step(id, states, events, actions, n - 3));
    if n - 3 != 0 {
        assert(content_read_run_step(id, states, events, actions, n - 4));
        assert(false);
    }
}

/// One step of streaming a Resource's content. A missing Resource, a Resource without content
/// and a missing Blob are answered with no stream. The stream announces the content's media
/// type and its full recorded size, also when only a range of it is read, and carries what the
/// reader opened unchanged.
pub fn content_read_step<S>(id: crate::domain::ids::ResourceId, state: ContentRead, event: ContentReadEvent<S>) -> (r: (
    ContentRead,
    ContentReadAction<S>,
))
    requires
        content_read_wf(state),
    ensures
        content_read_wf(r.0),
        content_read_transition(id, state, event, r),
{
    if let ContentReadEvent::Failed(e) = event {
        return (ContentRead::Finished, ContentReadAction::Finish(Err(e)));
    }
    match state {
        ContentRead::Start => (ContentRead::AwaitResource, ContentReadAction::FindResource(id)),
        ContentRead::AwaitResource => match event {
            ContentReadEvent::ResourceFound(found) => match found {
                None => (ContentRead::Finished, ContentReadAction::Finish(Ok(None))),
                Some(located) => {
                    if located.resource().content().is_none() {
                        return (ContentRead::Finished, ContentReadAction::Finish(Ok(None)));
                    }
                    let key = match located.storage_key() {
                        Ok(k) => k,
                        Err(_) => vstd::pervasive::unreached(),
                    };
                    (ContentRead::AwaitContent { located }, ContentReadAction::OpenContent(key))
                },
            },
            _ => (ContentRead::Finished, ContentReadAction::Finish(Err(crate::resource::recovery::unexpected()))),
        },
        ContentRead::AwaitContent { located } => match event {
            ContentReadEvent::ContentOpened(opened) => match opened {
                None => (ContentRead::Finished, ContentReadAction::Finish(Ok(None))),
                Some(z) => {
                    let content = match located.resource().content() {
                        Some(c) => c,
                        None => vstd::pervasive::unreached(),
                    };
                    let stream = crate::resource::contract::ResourceContentStream::new(
                        content_type_for_media(content),
                        content.size(),
                        z,
                    );
                    (ContentRead::Finished, ContentReadAction::Finish(Ok(Some(stream))))
                },
            },
            _ => (ContentRead::Finished, ContentReadAction::Finish(Err(crate::resource::recovery::unexpected()))),
        },
        ContentRead::Finished => (ContentRead::Finished, ContentReadAction::Finish(Err(crate::resource::recovery::unexpected()))),
    }
}


} // verus!
