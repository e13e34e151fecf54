//! Crash-recovery decisions for operations that cross the Resource store and Blob storage.
//!
//! Each workflow is a state machine: the caller performs the returned [`StorageAction`],
//! reports its outcome as a [`RecoveryEvent`], and steps again until the action is `Finish`.

use crate::domain::ids::{ResourceContentReplacementId, ResourceId};
use crate::domain::path::StorageKey;
use crate::domain::resource::Resource;
use crate::error::{Conflict, CoreError, Invariant, Subject};
use crate::resource::domain::{ResourceContentReplacement, ResourceDeletion};
use crate::resource::query::ResourceRelocation;
use crate::resource::query::{located_key, LocatedResource};
use vstd::prelude::*;

verus! {

/// The outcome of the last performed action.
#[derive(Debug)]
pub enum RecoveryEvent {
    /// No action was performed yet.
    Started,
    /// `store.load` returned this aggregate.
    ResourceLoaded(Option<Resource>),
    /// The read model returned this located Resource.
    ResourceFound(Option<LocatedResource>),
    /// `exists` returned this presence.
    BlobPresence(bool),
    /// A write action completed.
    Completed,
    /// New content was staged: the bytes written and the checksum of what was received.
    ContentStaged { bytes_written: u64, checksum: crate::domain::checksum::Checksum },
    /// A revision-guarded write reported whether it applied.
    CasApplied(bool),
    /// The Directory was located.
    DirectoryLocated(crate::domain::resource::DirectoryLocation),
    /// The action failed.
    Failed(CoreError),
}

/// The next operation to perform.
#[derive(Debug)]
pub enum StorageAction {
    /// Load the authoritative aggregate.
    LoadResource(ResourceId),
    /// Find the located Resource in the read model.
    FindResource(ResourceId),
    /// Report whether a Blob exists.
    BlobExists(StorageKey),
    /// Move a Blob to a vacant key.
    MoveIfAbsent { from: StorageKey, to: StorageKey },
    /// Delete a Blob.
    DeleteBlob(StorageKey),
    /// Delete the aggregate if it still has the revision.
    DeleteIfRevision { id: ResourceId, expected_revision: u64 },
    /// Store the aggregate if the stored one still has the revision.
    UpdateIfRevision { desired: Resource, expected_revision: u64 },
    /// Discard a staged Blob.
    DiscardStaged { key: StorageKey, size: u64 },
    /// Publish a staged Blob at a vacant key.
    PublishStaged { staged: StorageKey, size: u64, to: StorageKey },
    /// Persist a content replacement intent.
    SaveReplacementIntent(ResourceContentReplacement),
    /// Locate a Directory by identity.
    LocateDirectory(crate::domain::ids::DirectoryId),
    /// Find the Resource named `name` in a Directory.
    FindByDirectoryAndName { directory_id: crate::domain::ids::DirectoryId, name: String },
    /// Persist a relocation intent.
    SaveRelocation(ResourceRelocation),
    /// Run the relocation recovery workflow for this intent to completion.
    RunRelocation(ResourceRelocation),
    /// Persist a deletion intent.
    SaveDeletionIntent(ResourceDeletion),
    /// Run the deletion recovery workflow for this intent to completion.
    RunDeletion(ResourceDeletion),
    /// Clear a relocation intent.
    CompleteRelocation(ResourceId),
    /// Clear a deletion intent.
    RemoveDeletionIntent(ResourceId),
    /// Clear a content replacement intent.
    RemoveReplacementIntent(ResourceContentReplacementId),
    /// Create an empty staged Blob.
    CreateStaged(StorageKey),
    /// Stream new content into a staged Blob, accepting at most `expected_size` bytes and at
    /// most `max_size` bytes, and report what was staged.
    StageContent { key: StorageKey, expected_size: u64, max_size: u64 },
    /// Append the bytes the caller holds to a staged Blob and report what was staged.
    StageBytes(StorageKey),
    /// Run the replacement commit workflow for this intent and desired aggregate.
    RunReplacementCommit { replacement: ResourceContentReplacement, desired: Resource, staged_size: u64 },
    /// The workflow ended with this Resource.
    ReturnResource(Resource),
    /// The workflow ended with this result.
    Finish(Result<(), CoreError>),
}

/// The revision conflict reported for a Resource.
pub open spec fn stale_resource(id: ResourceId) -> CoreError {
    CoreError::RevisionConflict { subject: Subject::Resource, id: id.0 }
}

/// The error reported for an event that does not answer the pending action.
pub open spec fn unexpected_event() -> CoreError {
    CoreError::Invariant(Invariant::UnexpectedRecoveryEvent)
}

/// Phases of the recovery of a permanent deletion.
#[derive(Debug)]
pub enum DeletionRecovery {
    Start,
    AwaitLoad,
    AwaitSourcePresence,
    AwaitStagedPresence { source_exists: bool },
    AwaitMove,
    AwaitCas,
    AwaitReload,
    AwaitStaleLocation,
    AwaitStaleStaged { current_key: Option<StorageKey> },
    AwaitStaleKeyPresence { current_key: StorageKey },
    AwaitCleanup { outcome: Result<(), CoreError> },
    AwaitIntentRemoval { outcome: Result<(), CoreError> },
    Finished,
}

/// Every Blob operation of a deletion recovery touches only the deletion's own keys: deletes
/// target the internal staged key, and a move either stages the visible Blob or restores the
/// staged one.
pub open spec fn deletion_action_confined(d: ResourceDeletion, a: StorageAction) -> bool {
    match a {
        StorageAction::DeleteBlob(k) => k@ == d@.deletion_key,
        StorageAction::MoveIfAbsent { from, to } => (from@ == d@.source_key && to@
            == d@.deletion_key) || from@ == d@.deletion_key,
        StorageAction::DeleteIfRevision { id, expected_revision } => id == d@.resource_id
            && expected_revision == d@.expected_revision,
        StorageAction::LoadResource(id) => id == d@.resource_id,
        StorageAction::FindResource(id) => id == d@.resource_id,
        StorageAction::RemoveDeletionIntent(id) => id == d@.resource_id,
        StorageAction::BlobExists(_) => true,
        StorageAction::Finish(_) => true,
        _ => false,
    }
}

pub(crate) fn stale(id: ResourceId) -> (e: CoreError)
    ensures
        e == stale_resource(id),
{
    CoreError::RevisionConflict { subject: Subject::Resource, id: id.0 }
}

pub(crate) fn unexpected() -> (e: CoreError)
    ensures
        e == unexpected_event(),
{
    CoreError::Invariant(Invariant::UnexpectedRecoveryEvent)
}

/// Step `i` of a recorded run of a deletion recovery is one that `deletion_recovery_step` can
/// take.
pub open spec fn deletion_run_step(
    deletion: ResourceDeletion,
    states: Seq<DeletionRecovery>,
    events: Seq<RecoveryEvent>,
    actions: Seq<StorageAction>,
    i: int,
) -> bool {
    &&& deletion_recovery_transition(deletion, states[i], events[i], (states[i + 1], actions[i]))
    &&& deletion_action_confined(deletion, actions[i])
}

/// A deletion carried out through its durable intent reports success only once everything is
/// gone: in a recovery run from the start that ends in `Finish(Ok(()))`, the aggregate was found
/// deleted or its deletion guarded by the expected revision was applied (after the visible Blob
/// was moved to the deletion key or seen absent), then the Blob at the deletion key was deleted,
/// and then the intent was removed.
pub proof fn lemma_deletion_recovery_success_removed_everything(
    deletion: ResourceDeletion,
    states: Seq<DeletionRecovery>,
    events: Seq<RecoveryEvent>,
    actions: Seq<StorageAction>,
)
    requires
        states.len() == actions.len() + 1,
        events.len() == actions.len(),
        actions.len() > 0,
        states[0] is Start,
        forall|i: int| 0 <= i < actions.len() ==> #[trigger] deletion_run_step(deletion, states, events, actions, i),
        actions.last() == StorageAction::Finish(Ok(())),
    ensures
        ({
            let n = actions.len() as int;
            let d = deletion@;
            &&& n >= 4
            &&& events[n - 1] == RecoveryEvent::Completed
            &&& actions[n - 2] == StorageAction::RemoveDeletionIntent(d.resource_id)
            &&& events[n - 2] == RecoveryEvent::Completed
            &&& actions[n - 3] matches StorageAction::DeleteBlob(k) && k@ == d.deletion_key
            &&& {
                ||| events[n - 3] == RecoveryEvent::ResourceLoaded(None) && actions[n - 4]
                    == StorageAction::LoadResource(d.resource_id)
                ||| n >= 5 && events[n - 3] == RecoveryEvent::CasApplied(true) && actions[n - 4]
                    == (StorageAction::DeleteIfRevision {
                    id: d.resource_id,
                    expected_revision: d.expected_revision,
                }) && ((events[n - 4] == RecoveryEvent::Completed && (actions[n
                    - 5] matches StorageAction::MoveIfAbsent { from, to } && from@ == d.source_key
                    && to@ == d.deletion_key)) || (n >= 6 && events[n - 5]
                    == RecoveryEvent::BlobPresence(false) && (actions[n
                    - 6] matches StorageAction::BlobExists(k) && k@ == d.source_key)))
            }
        }),
{
    let n = actions.len() as int;
    assert(deletion_run_step(deletion, states, events, actions, n - 1));
    assert(n - 1 != 0);
    assert(deletion_run_step(deletion, states, events, actions, n - 2));
    assert(n - 2 != 0);
    assert(deletion_run_step(deletion, states, events, actions, n - 3));
    assert(n - 3 != 0);
    assert(deletion_run_step(deletion, states, events, actions, n - 4));
    if states[n - 3] is AwaitCas {
        assert(n - 4 != 0);
        assert(deletion_run_step(deletion, states, events, actions, n - 5));
        if states[n - 4] is AwaitStagedPresence {
            assert(n - 5 != 0);
            assert(deletion_run_step(deletion, states, events, actions, n - 6));
        }
    }
}

/// What one step of recovering a permanent deletion answers to each event.
pub open spec fn deletion_recovery_transition(
    deletion: ResourceDeletion,
    state: DeletionRecovery,
    event: RecoveryEvent,
    r: (DeletionRecovery, StorageAction),
) -> bool {
    match (state, event) {
        (DeletionRecovery::Start, _) => r.0 is AwaitLoad && r.1 is LoadResource,
        (_, RecoveryEvent::Failed(e)) => r.0 is Finished && r.1 == StorageAction::Finish(
            Err(e),
        ),
        (DeletionRecovery::AwaitLoad, RecoveryEvent::ResourceLoaded(None)) => r.0
            == DeletionRecovery::AwaitCleanup { outcome: Ok(()) } && r.1 is DeleteBlob,
        (DeletionRecovery::AwaitLoad, RecoveryEvent::ResourceLoaded(Some(current))) => if current@.revision
            != deletion@.expected_revision {
            r.0 is AwaitStaleLocation && r.1 is FindResource
        } else {
            r.0 is AwaitSourcePresence && (r.1 matches StorageAction::BlobExists(k) && k@
                == deletion@.source_key)
        },
        (DeletionRecovery::AwaitSourcePresence, RecoveryEvent::BlobPresence(b)) => r.0
            == DeletionRecovery::AwaitStagedPresence { source_exists: b } && (r.1 matches StorageAction::BlobExists(
            k,
        ) && k@ == deletion@.deletion_key),
        (
            DeletionRecovery::AwaitStagedPresence { source_exists },
            RecoveryEvent::BlobPresence(staged_exists),
        ) => if source_exists && staged_exists {
            r.0 is Finished && r.1 == StorageAction::Finish(
                Err(CoreError::Conflict(Conflict::DeletionHasVisibleAndStagedBlobs)),
            )
        } else if source_exists {
            r.0 is AwaitMove && (r.1 matches StorageAction::MoveIfAbsent { from, to } && from@
                == deletion@.source_key && to@ == deletion@.deletion_key)
        } else {
            r.0 is AwaitCas && r.1 is DeleteIfRevision
        },
        (DeletionRecovery::AwaitMove, RecoveryEvent::Completed) => r.0 is AwaitCas
            && r.1 is DeleteIfRevision,
        (DeletionRecovery::AwaitCas, RecoveryEvent::CasApplied(true)) => r.0
            == DeletionRecovery::AwaitCleanup { outcome: Ok(()) } && r.1 is DeleteBlob,
        (DeletionRecovery::AwaitCas, RecoveryEvent::CasApplied(false)) => r.0 is AwaitReload
            && r.1 is LoadResource,
        (DeletionRecovery::AwaitReload, RecoveryEvent::ResourceLoaded(None)) => r.0
            == DeletionRecovery::AwaitCleanup { outcome: Ok(()) } && r.1 is DeleteBlob,
        (DeletionRecovery::AwaitReload, RecoveryEvent::ResourceLoaded(Some(_))) => r.0 is AwaitStaleLocation
            && r.1 is FindResource,
        (DeletionRecovery::AwaitStaleLocation, RecoveryEvent::ResourceFound(found)) => (r.1 matches StorageAction::BlobExists(
            k,
        ) && k@ == deletion@.deletion_key) && (r.0 matches DeletionRecovery::AwaitStaleStaged {
            current_key,
        } && (match found {
            Some(l) => (current_key matches Some(k) && k@ == located_key(l@)),
            None => current_key is None,
        })),
        (
            DeletionRecovery::AwaitStaleStaged { current_key },
            RecoveryEvent::BlobPresence(staged_exists),
        ) => if !staged_exists {
            r.0 == DeletionRecovery::AwaitIntentRemoval {
                outcome: Err(stale_resource(deletion@.resource_id)),
            } && r.1 is RemoveDeletionIntent
        } else {
            match current_key {
                Some(k) => r.0 == DeletionRecovery::AwaitStaleKeyPresence { current_key: k }
                    && (r.1 matches StorageAction::BlobExists(q) && q@ == k@),
                None => r.0 == DeletionRecovery::AwaitCleanup {
                    outcome: Err(stale_resource(deletion@.resource_id)),
                } && r.1 is DeleteBlob,
            }
        },
        (
            DeletionRecovery::AwaitStaleKeyPresence { current_key },
            RecoveryEvent::BlobPresence(present),
        ) => r.0 == DeletionRecovery::AwaitCleanup {
            outcome: Err(stale_resource(deletion@.resource_id)),
        } && if present {
            r.1 is DeleteBlob
        } else {
            (r.1 matches StorageAction::MoveIfAbsent { from, to } && from@ == deletion@.deletion_key
                && to@ == current_key@)
        },
        (DeletionRecovery::AwaitCleanup { outcome }, RecoveryEvent::Completed) => r.0
            == DeletionRecovery::AwaitIntentRemoval { outcome } && r.1
            == StorageAction::RemoveDeletionIntent(deletion@.resource_id),
        (DeletionRecovery::AwaitIntentRemoval { outcome }, RecoveryEvent::Completed) => r.0 is Finished
            && r.1 == StorageAction::Finish(outcome),
        _ => r.0 is Finished && r.1 == StorageAction::Finish(Err(unexpected_event())),
    }
}

/// One step of recovering (or completing) a permanent deletion.
///
/// A missing aggregate means the database delete committed: only the staged Blob is removed,
/// never a Blob that reappeared at the visible key. A newer revision is stale: the staged Blob
/// is restored to the Resource's current key only when that key is vacant, and the step reports
/// a revision conflict.
pub fn deletion_recovery_step(
    deletion: &ResourceDeletion,
    state: DeletionRecovery,
    event: RecoveryEvent,
) -> (r: (DeletionRecovery, StorageAction))
    ensures
        deletion_action_confined(*deletion, r.1),
        deletion_recovery_transition(*deletion, state, event, r),
{
    let id = deletion.resource_id();
    if let DeletionRecovery::Start = state {
        return (DeletionRecovery::AwaitLoad, StorageAction::LoadResource(id));
    }
    if let RecoveryEvent::Failed(e) = event {
        return (DeletionRecovery::Finished, StorageAction::Finish(Err(e)));
    }
    match (state, event) {
        (DeletionRecovery::AwaitLoad, RecoveryEvent::ResourceLoaded(None)) | (
            DeletionRecovery::AwaitReload,
            RecoveryEvent::ResourceLoaded(None),
        ) => (
            DeletionRecovery::AwaitCleanup { outcome: Ok(()) },
            StorageAction::DeleteBlob(deletion.deletion_key().clone()),
        ),
        (DeletionRecovery::AwaitLoad, RecoveryEvent::ResourceLoaded(Some(current))) => {
            if current.revision() != deletion.expected_revision() {
                (DeletionRecovery::AwaitStaleLocation, StorageAction::FindResource(id))
            } else {
                (
                    DeletionRecovery::AwaitSourcePresence,
                    StorageAction::BlobExists(deletion.source_key().clone()),
                )
            }
        },
        (DeletionRecovery::AwaitSourcePresence, RecoveryEvent::BlobPresence(b)) => (
            DeletionRecovery::AwaitStagedPresence { source_exists: b },
            StorageAction::BlobExists(deletion.deletion_key().clone()),
        ),
        (
            DeletionRecovery::AwaitStagedPresence { source_exists },
            RecoveryEvent::BlobPresence(staged_exists),
        ) => {
            if source_exists && staged_exists {
                (
                    DeletionRecovery::Finished,
                    StorageAction::Finish(
                        Err(CoreError::Conflict(Conflict::DeletionHasVisibleAndStagedBlobs)),
                    ),
                )
            } else if source_exists {
                (
                    DeletionRecovery::AwaitMove,
                    StorageAction::MoveIfAbsent {
                        from: deletion.source_key().clone(),
                        to: deletion.deletion_key().clone(),
                    },
                )
            } else {
                (
                    DeletionRecovery::AwaitCas,
                    StorageAction::DeleteIfRevision {
                        id,
                        expected_revision: deletion.expected_revision(),
                    },
                )
            }
        },
        (DeletionRecovery::AwaitMove, RecoveryEvent::Completed) => (
            DeletionRecovery::AwaitCas,
            StorageAction::DeleteIfRevision { id, expected_revision: deletion.expected_revision() },
        ),
        (DeletionRecovery::AwaitCas, RecoveryEvent::CasApplied(applied)) => {
            if applied {
                (
                    DeletionRecovery::AwaitCleanup { outcome: Ok(()) },
                    StorageAction::DeleteBlob(deletion.deletion_key().clone()),
                )
            } else {
                (DeletionRecovery::AwaitReload, StorageAction::LoadResource(id))
            }
        },
        (DeletionRecovery::AwaitReload, RecoveryEvent::ResourceLoaded(Some(_))) => (
            DeletionRecovery::AwaitStaleLocation,
            StorageAction::FindResource(id),
        ),
        (DeletionRecovery::AwaitStaleLocation, RecoveryEvent::ResourceFound(found)) => {
            let current_key = match found {
                Some(located) => match located.storage_key() {
                    Ok(k) => Some(k),
                    Err(_) => None,
                },
                None => None,
            };
            (
                DeletionRecovery::AwaitStaleStaged { current_key },
                StorageAction::BlobExists(deletion.deletion_key().clone()),
            )
        },
        (
            DeletionRecovery::AwaitStaleStaged { current_key },
            RecoveryEvent::BlobPresence(staged_exists),
        ) => {
            if !staged_exists {
                (
                    DeletionRecovery::AwaitIntentRemoval { outcome: Err(stale(id)) },
                    StorageAction::RemoveDeletionIntent(id),
                )
            } else {
                match current_key {
                    Some(k) => {
                        let probe = k.clone();
                        (
                            DeletionRecovery::AwaitStaleKeyPresence { current_key: k },
                            StorageAction::BlobExists(probe),
                        )
                    },
                    None => (
                        DeletionRecovery::AwaitCleanup { outcome: Err(stale(id)) },
                        StorageAction::DeleteBlob(deletion.deletion_key().clone()),
                    ),
                }
            }
        },
        (
            DeletionRecovery::AwaitStaleKeyPresence { current_key },
            RecoveryEvent::BlobPresence(present),
        ) => {
            if present {
                (
                    DeletionRecovery::AwaitCleanup { outcome: Err(stale(id)) },
                    StorageAction::DeleteBlob(deletion.deletion_key().clone()),
                )
            } else {
                (
                    DeletionRecovery::AwaitCleanup { outcome: Err(stale(id)) },
                    StorageAction::MoveIfAbsent {
                        from: deletion.deletion_key().clone(),
                        to: current_key,
                    },
                )
            }
        },
        (DeletionRecovery::AwaitCleanup { outcome }, RecoveryEvent::Completed) => (
            DeletionRecovery::AwaitIntentRemoval { outcome },
            StorageAction::RemoveDeletionIntent(id),
        ),
        (DeletionRecovery::AwaitIntentRemoval { outcome }, RecoveryEvent::Completed) => (
            DeletionRecovery::Finished,
            StorageAction::Finish(outcome),
        ),
        _ => (DeletionRecovery::Finished, StorageAction::Finish(Err(unexpected()))),
    }
}

/// Phases of the recovery of a Resource rename or move.
#[derive(Debug)]
pub enum RelocationRecovery {
    Start,
    AwaitLoad,
    AwaitSourcePresence { applied: bool, revision_matches: bool },
    AwaitDestinationPresence { applied: bool, revision_matches: bool, source_exists: bool },
    AwaitMoveThenCas,
    AwaitCas,
    AwaitMoveThenComplete { outcome: Result<(), CoreError> },
    AwaitComplete { outcome: Result<(), CoreError> },
    Finished,
}

/// The error reported when both or neither of the relocation's Blob keys exist.
pub open spec fn ambiguous_relocation() -> CoreError {
    CoreError::Conflict(Conflict::RelocationAmbiguousPhysicalState)
}

/// A relocation recovery moves Blobs only between the relocation's two keys, writes only the
/// desired aggregate with the expected revision, and never deletes a Blob.
pub open spec fn relocation_action_confined(rel: ResourceRelocation, a: StorageAction) -> bool {
    match a {
        StorageAction::MoveIfAbsent { from, to } => (from@ == rel@.source_key && to@
            == rel@.destination_key) || (from@ == rel@.destination_key && to@ == rel@.source_key),
        StorageAction::UpdateIfRevision { desired, expected_revision } => desired@ == rel@.desired
            && expected_revision == rel@.expected_revision,
        StorageAction::BlobExists(k) => k@ == rel@.source_key || k@ == rel@.destination_key,
        StorageAction::LoadResource(id) => id == rel@.desired.id,
        StorageAction::CompleteRelocation(id) => id == rel@.desired.id,
        StorageAction::Finish(_) => true,
        _ => false,
    }
}

fn ambiguous() -> (e: CoreError)
    ensures
        e == ambiguous_relocation(),
{
    CoreError::Conflict(Conflict::RelocationAmbiguousPhysicalState)
}

/// One step of completing (or rolling back) a Resource relocation.
///
/// When the stored aggregate already equals the desired one, the Blob is moved forward if
/// needed. When the stored revision moved on, a Blob already moved is moved back and a revision
/// conflict is reported. Otherwise the Blob is moved forward and the desired aggregate is
/// written with a revision check; if that check fails the Blob is moved back.
pub fn relocation_recovery_step(
    relocation: &ResourceRelocation,
    state: RelocationRecovery,
    event: RecoveryEvent,
) -> (r: (RelocationRecovery, StorageAction))
    ensures
        relocation_action_confined(*relocation, r.1),
        match (state, event) {
            (RelocationRecovery::Start, _) => r.0 is AwaitLoad && r.1 is LoadResource,
            (_, RecoveryEvent::Failed(e)) => r.0 is Finished && r.1 == StorageAction::Finish(
                Err(e),
            ),
            (RelocationRecovery::AwaitLoad, RecoveryEvent::ResourceLoaded(None)) => r.0 is Finished
                && r.1 == StorageAction::Finish(
                Err(
                    CoreError::NotFound {
                        subject: Subject::ResourceRelocation,
                        id: relocation@.desired.id.0,
                    },
                ),
            ),
            (RelocationRecovery::AwaitLoad, RecoveryEvent::ResourceLoaded(Some(current))) => r.0
                == RelocationRecovery::AwaitSourcePresence {
                applied: current@ == relocation@.desired,
                revision_matches: current@.revision == relocation@.expected_revision,
            } && (r.1 matches StorageAction::BlobExists(k) && k@ == relocation@.source_key),
            (
                RelocationRecovery::AwaitSourcePresence { applied, revision_matches },
                RecoveryEvent::BlobPresence(b),
            ) => r.0 == RelocationRecovery::AwaitDestinationPresence {
                applied,
                revision_matches,
                source_exists: b,
            } && (r.1 matches StorageAction::BlobExists(k) && k@ == relocation@.destination_key),
            (
                RelocationRecovery::AwaitDestinationPresence {
                    applied,
                    revision_matches,
                    source_exists,
                },
                RecoveryEvent::BlobPresence(destination_exists),
            ) => if applied {
                if source_exists && !destination_exists {
                    r.0 == RelocationRecovery::AwaitMoveThenComplete { outcome: Ok(()) } && (r.1 matches StorageAction::MoveIfAbsent {
                        from,
                        to,
                    } && from@ == relocation@.source_key)
                } else if !source_exists && destination_exists {
                    r.0 == RelocationRecovery::AwaitComplete { outcome: Ok(()) } && r.1 is CompleteRelocation
                } else {
                    r.0 is Finished && r.1 == StorageAction::Finish(Err(ambiguous_relocation()))
                }
            } else if !revision_matches {
                r.0 == RelocationRecovery::AwaitMoveThenComplete {
                    outcome: Err(stale_resource(relocation@.desired.id)),
                } && (r.1 matches StorageAction::MoveIfAbsent { from, to } && from@
                    == relocation@.destination_key) && !source_exists && destination_exists || r.0
                    == RelocationRecovery::AwaitComplete {
                    outcome: Err(stale_resource(relocation@.desired.id)),
                } && r.1 is CompleteRelocation && !(!source_exists && destination_exists)
            } else {
                if source_exists && !destination_exists {
                    r.0 is AwaitMoveThenCas && (r.1 matches StorageAction::MoveIfAbsent {
                        from,
                        to,
                    } && from@ == relocation@.source_key)
                } else if !source_exists && destination_exists {
                    r.0 is AwaitCas && r.1 is UpdateIfRevision
                } else {
                    r.0 is Finished && r.1 == StorageAction::Finish(Err(ambiguous_relocation()))
                }
            },
            (RelocationRecovery::AwaitMoveThenCas, RecoveryEvent::Completed) => r.0 is AwaitCas
                && r.1 is UpdateIfRevision,
            (RelocationRecovery::AwaitCas, RecoveryEvent::CasApplied(applied)) => if applied {
                r.0 == RelocationRecovery::AwaitComplete { outcome: Ok(()) } && r.1 is CompleteRelocation
            } else {
                r.0 == RelocationRecovery::AwaitMoveThenComplete {
                    outcome: Err(stale_resource(relocation@.desired.id)),
                } && (r.1 matches StorageAction::MoveIfAbsent { from, to } && from@
                    == relocation@.destination_key)
            },
            (RelocationRecovery::AwaitMoveThenComplete { outcome }, RecoveryEvent::Completed) => r.0
                == RelocationRecovery::AwaitComplete { outcome } && r.1 is CompleteRelocation,
            (RelocationRecovery::AwaitComplete { outcome }, RecoveryEvent::Completed) => r.0 is Finished
                && r.1 == StorageAction::Finish(outcome),
            _ => r.0 is Finished && r.1 == StorageAction::Finish(Err(unexpected_event())),
        },
{
    let id = relocation.resource_id();
    if let RelocationRecovery::Start = state {
        return (RelocationRecovery::AwaitLoad, StorageAction::LoadResource(id));
    }
    if let RecoveryEvent::Failed(e) = event {
        return (RelocationRecovery::Finished, StorageAction::Finish(Err(e)));
    }
    let forward = || -> (a: StorageAction)
        ensures
            a matches StorageAction::MoveIfAbsent { from, to } && from@ == relocation@.source_key
                && to@ == relocation@.destination_key,
        {
            StorageAction::MoveIfAbsent {
                from: relocation.source_key().clone(),
                to: relocation.destination_key().clone(),
            }
        };
    let backward = || -> (a: StorageAction)
        ensures
            a matches StorageAction::MoveIfAbsent { from, to } && from@ == relocation@.destination_key
                && to@ == relocation@.source_key,
        {
            StorageAction::MoveIfAbsent {
                from: relocation.destination_key().clone(),
                to: relocation.source_key().clone(),
            }
        };
    let cas = || -> (a: StorageAction)
        ensures
            a matches StorageAction::UpdateIfRevision { desired, expected_revision } && desired@
                == relocation@.desired && expected_revision == relocation@.expected_revision,
        {
            StorageAction::UpdateIfRevision {
                desired: relocation.desired().clone(),
                expected_revision: relocation.expected_revision(),
            }
        };
    match (state, event) {
        (RelocationRecovery::AwaitLoad, RecoveryEvent::ResourceLoaded(None)) => (
            RelocationRecovery::Finished,
            StorageAction::Finish(
                Err(CoreError::NotFound { subject: Subject::ResourceRelocation, id: id.0 }),
            ),
        ),
        (RelocationRecovery::AwaitLoad, RecoveryEvent::ResourceLoaded(Some(current))) => (
            RelocationRecovery::AwaitSourcePresence {
                applied: current.same_as(relocation.desired()),
                revision_matches: current.revision() == relocation.expected_revision(),
            },
            StorageAction::BlobExists(relocation.source_key().clone()),
        ),
        (
            RelocationRecovery::AwaitSourcePresence { applied, revision_matches },
            RecoveryEvent::BlobPresence(b),
        ) => (
            RelocationRecovery::AwaitDestinationPresence {
                applied,
                revision_matches,
                source_exists: b,
            },
            StorageAction::BlobExists(relocation.destination_key().clone()),
        ),
        (
            RelocationRecovery::AwaitDestinationPresence { applied, revision_matches, source_exists },
            RecoveryEvent::BlobPresence(destination_exists),
        ) => {
            if applied {
                if source_exists && !destination_exists {
                    (RelocationRecovery::AwaitMoveThenComplete { outcome: Ok(()) }, forward())
                } else if !source_exists && destination_exists {
                    (
                        RelocationRecovery::AwaitComplete { outcome: Ok(()) },
                        StorageAction::CompleteRelocation(id),
                    )
                } else {
                    (RelocationRecovery::Finished, StorageAction::Finish(Err(ambiguous())))
                }
            } else if !revision_matches {
                if !source_exists && destination_exists {
                    (RelocationRecovery::AwaitMoveThenComplete { outcome: Err(stale(id)) }, backward())
                } else {
                    (
                        RelocationRecovery::AwaitComplete { outcome: Err(stale(id)) },
                        StorageAction::CompleteRelocation(id),
                    )
                }
            } else {
                if source_exists && !destination_exists {
                    (RelocationRecovery::AwaitMoveThenCas, forward())
                } else if !source_exists && destination_exists {
                    (RelocationRecovery::AwaitCas, cas())
                } else {
                    (RelocationRecovery::Finished, StorageAction::Finish(Err(ambiguous())))
                }
            }
        },
        (RelocationRecovery::AwaitMoveThenCas, RecoveryEvent::Completed) => (
            RelocationRecovery::AwaitCas,
            cas(),
        ),
        (RelocationRecovery::AwaitCas, RecoveryEvent::CasApplied(applied)) => {
            if applied {
                (
                    RelocationRecovery::AwaitComplete { outcome: Ok(()) },
                    StorageAction::CompleteRelocation(id),
                )
            } else {
                (RelocationRecovery::AwaitMoveThenComplete { outcome: Err(stale(id)) }, backward())
            }
        },
        (RelocationRecovery::AwaitMoveThenComplete { outcome }, RecoveryEvent::Completed) => (
            RelocationRecovery::AwaitComplete { outcome },
            StorageAction::CompleteRelocation(id),
        ),
        (RelocationRecovery::AwaitComplete { outcome }, RecoveryEvent::Completed) => (
            RelocationRecovery::Finished,
            StorageAction::Finish(outcome),
        ),
        _ => (RelocationRecovery::Finished, StorageAction::Finish(Err(unexpected()))),
    }
}

/// Phases of the recovery of a pending content replacement.
#[derive(Debug)]
pub enum ReplacementRecovery {
    Start,
    AwaitFind,
    AwaitBackupDeletion,
    AwaitBackupPresence,
    AwaitTargetDeletion,
    AwaitRestore,
    AwaitTargetPresence,
    AwaitStagedDiscard,
    AwaitIntentRemoval,
    Finished,
}

/// The stored Resource shows the replacement committed: same key, the next revision, and the
/// replacement content.
pub open spec fn replacement_committed(
    p: ResourceContentReplacement,
    found: (crate::domain::resource::ResourceView, (crate::domain::ids::DirectoryId, Seq<char>)),
) -> bool {
    &&& located_key(found) == p@.target_key
    &&& found.0.revision == p@.expected_revision + 1
    &&& found.0.content == Some(p@.replacement_content)
}

/// The stored Resource is still exactly the one the replacement started from.
pub open spec fn replacement_pending(
    p: ResourceContentReplacement,
    found: (crate::domain::resource::ResourceView, (crate::domain::ids::DirectoryId, Seq<char>)),
) -> bool {
    located_key(found) == p@.target_key && found.0.revision == p@.expected_revision
}

/// A replacement recovery deletes the visible target Blob only right after the backup was seen
/// to exist, and otherwise deletes or discards only its private backup and staged Blobs.
pub open spec fn replacement_action_confined(
    p: ResourceContentReplacement,
    state: ReplacementRecovery,
    event: RecoveryEvent,
    a: StorageAction,
) -> bool {
    match a {
        StorageAction::DeleteBlob(k) => k@ == p@.backup_key || (k@ == p@.target_key
            && state is AwaitBackupPresence && event == RecoveryEvent::BlobPresence(true)),
        StorageAction::MoveIfAbsent { from, to } => from@ == p@.backup_key && to@
            == p@.target_key,
        StorageAction::DiscardStaged { key, size } => key@ == p@.staged_key && size
            == p@.replacement_content.size,
        StorageAction::BlobExists(k) => k@ == p@.backup_key || k@ == p@.target_key,
        StorageAction::FindResource(id) => id == p@.resource_id,
        StorageAction::RemoveReplacementIntent(id) => id == p@.id,
        StorageAction::Finish(_) => true,
        _ => false,
    }
}

/// One step of resolving a pending content replacement after a restart.
///
/// A committed replacement only loses its backup and staged artifacts. An uncommitted one whose
/// Resource is unchanged is rolled back: the backup, when present, replaces the target. Any
/// other Resource state is a conflict and nothing is touched.
pub fn replacement_recovery_step(
    replacement: &ResourceContentReplacement,
    state: ReplacementRecovery,
    event: RecoveryEvent,
) -> (r: (ReplacementRecovery, StorageAction))
    ensures
        replacement_action_confined(*replacement, state, event, r.1),
        match (state, event) {
            (ReplacementRecovery::Start, _) => r.0 is AwaitFind && r.1 is FindResource,
            (_, RecoveryEvent::Failed(e)) => r.0 is Finished && r.1 == StorageAction::Finish(
                Err(e),
            ),
            (ReplacementRecovery::AwaitFind, RecoveryEvent::ResourceFound(None)) => r.0 is Finished
                && r.1 == StorageAction::Finish(
                Err(CoreError::Invariant(Invariant::ReplacementReferencesMissingResource)),
            ),
            (ReplacementRecovery::AwaitFind, RecoveryEvent::ResourceFound(Some(found))) => if replacement@.expected_revision
                == u64::MAX {
                r.0 is Finished && r.1 == StorageAction::Finish(
                    Err(CoreError::Invariant(Invariant::ResourceRevisionOverflow)),
                )
            } else if replacement_committed(*replacement, found@) {
                r.0 is AwaitBackupDeletion && r.1 is DeleteBlob
            } else if !replacement_pending(*replacement, found@) {
                r.0 is Finished && r.1 == StorageAction::Finish(
                    Err(CoreError::Conflict(Conflict::ReplacementNoLongerMatches)),
                )
            } else {
                r.0 is AwaitBackupPresence && (r.1 matches StorageAction::BlobExists(k) && k@
                    == replacement@.backup_key)
            },
            (ReplacementRecovery::AwaitBackupDeletion, RecoveryEvent::Completed) => r.0 is AwaitStagedDiscard
                && r.1 is DiscardStaged,
            (ReplacementRecovery::AwaitBackupPresence, RecoveryEvent::BlobPresence(b)) => if b {
                r.0 is AwaitTargetDeletion && (r.1 matches StorageAction::DeleteBlob(k) && k@
                    == replacement@.target_key)
            } else {
                r.0 is AwaitTargetPresence && (r.1 matches StorageAction::BlobExists(k) && k@
                    == replacement@.target_key)
            },
            (ReplacementRecovery::AwaitTargetDeletion, RecoveryEvent::Completed) => r.0 is AwaitRestore
                && r.1 is MoveIfAbsent,
            (ReplacementRecovery::AwaitRestore, RecoveryEvent::Completed) => r.0 is AwaitStagedDiscard
                && r.1 is DiscardStaged,
            (ReplacementRecovery::AwaitTargetPresence, RecoveryEvent::BlobPresence(b)) => if b {
                r.0 is AwaitStagedDiscard && r.1 is DiscardStaged
            } else {
                r.0 is Finished && r.1 == StorageAction::Finish(
                    Err(CoreError::Invariant(Invariant::ReplacementMissingBlobs)),
                )
            },
            (ReplacementRecovery::AwaitStagedDiscard, RecoveryEvent::Completed) => r.0 is AwaitIntentRemoval
                && r.1 == StorageAction::RemoveReplacementIntent(replacement@.id),
            (ReplacementRecovery::AwaitIntentRemoval, RecoveryEvent::Completed) => r.0 is Finished
                && r.1 == StorageAction::Finish(Ok(())),
            _ => r.0 is Finished && r.1 == StorageAction::Finish(Err(unexpected_event())),
        },
{
    if let ReplacementRecovery::Start = state {
        return (
            ReplacementRecovery::AwaitFind,
            StorageAction::FindResource(replacement.resource_id()),
        );
    }
    let discard = || -> (a: StorageAction)
        ensures
            a matches StorageAction::DiscardStaged { key, size } && key@ == replacement@.staged_key
                && size == replacement@.replacement_content.size,
        {
            StorageAction::DiscardStaged {
                key: replacement.staged_key().clone(),
                size: replacement.replacement_content().size(),
            }
        };
    match (state, event) {
        (_, RecoveryEvent::Failed(e)) => (ReplacementRecovery::Finished, StorageAction::Finish(Err(e))),
        (ReplacementRecovery::AwaitFind, RecoveryEvent::ResourceFound(None)) => (
            ReplacementRecovery::Finished,
            StorageAction::Finish(
                Err(CoreError::Invariant(Invariant::ReplacementReferencesMissingResource)),
            ),
        ),
        (ReplacementRecovery::AwaitFind, RecoveryEvent::ResourceFound(Some(found))) => {
            if replacement.expected_revision() == u64::MAX {
                return (
                    ReplacementRecovery::Finished,
                    StorageAction::Finish(
                        Err(CoreError::Invariant(Invariant::ResourceRevisionOverflow)),
                    ),
                );
            }
            let committed_revision = replacement.expected_revision() + 1;
            let current_key = match found.storage_key() {
                Ok(k) => k,
                Err(e) => {
                    return (ReplacementRecovery::Finished, StorageAction::Finish(Err(e)));
                },
            };
            let current = found.resource();
            let same_key = current_key.same_as(replacement.target_key());
            let committed = same_key && current.revision() == committed_revision
                && crate::domain::resource::content_is(
                current.content(),
                replacement.replacement_content(),
            );
            if committed {
                return (
                    ReplacementRecovery::AwaitBackupDeletion,
                    StorageAction::DeleteBlob(replacement.backup_key().clone()),
                );
            }
            if !same_key || current.revision() != replacement.expected_revision() {
                return (
                    ReplacementRecovery::Finished,
                    StorageAction::Finish(
                        Err(CoreError::Conflict(Conflict::ReplacementNoLongerMatches)),
                    ),
                );
            }
            (
                ReplacementRecovery::AwaitBackupPresence,
                StorageAction::BlobExists(replacement.backup_key().clone()),
            )
        },
        (ReplacementRecovery::AwaitBackupDeletion, RecoveryEvent::Completed) => (
            ReplacementRecovery::AwaitStagedDiscard,
            discard(),
        ),
        (ReplacementRecovery::AwaitBackupPresence, RecoveryEvent::BlobPresence(b)) => {
            if b {
                (
                    ReplacementRecovery::AwaitTargetDeletion,
                    StorageAction::DeleteBlob(replacement.target_key().clone()),
                )
            } else {
                (
                    ReplacementRecovery::AwaitTargetPresence,
                    StorageAction::BlobExists(replacement.target_key().clone()),
                )
            }
        },
        (ReplacementRecovery::AwaitTargetDeletion, RecoveryEvent::Completed) => (
            ReplacementRecovery::AwaitRestore,
            StorageAction::MoveIfAbsent {
                from: replacement.backup_key().clone(),
                to: replacement.target_key().clone(),
            },
        ),
        (ReplacementRecovery::AwaitRestore, RecoveryEvent::Completed) => (
            ReplacementRecovery::AwaitStagedDiscard,
            discard(),
        ),
        (ReplacementRecovery::AwaitTargetPresence, RecoveryEvent::BlobPresence(b)) => {
            if b {
                (ReplacementRecovery::AwaitStagedDiscard, discard())
            } else {
                (
                    ReplacementRecovery::Finished,
                    StorageAction::Finish(
                        Err(CoreError::Invariant(Invariant::ReplacementMissingBlobs)),
                    ),
                )
            }
        },
        (ReplacementRecovery::AwaitStagedDiscard, RecoveryEvent::Completed) => (
            ReplacementRecovery::AwaitIntentRemoval,
            StorageAction::RemoveReplacementIntent(replacement.id()),
        ),
        (ReplacementRecovery::AwaitIntentRemoval, RecoveryEvent::Completed) => (
            ReplacementRecovery::Finished,
            StorageAction::Finish(Ok(())),
        ),
        _ => (ReplacementRecovery::Finished, StorageAction::Finish(Err(unexpected()))),
    }
}

} // verus!


