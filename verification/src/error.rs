//! Core error values. Every error carries structured data instead of pre-formatted text so that
//! contracts can state exactly which failure a function reports.

use vstd::prelude::*;

verus! {

/// The aggregate or record an error refers to.
#[derive(Debug, Clone, Copy, PartialEq, Eq, Structural)]
pub enum Subject {
    Resource,
    ResourceRelocation,
    Directory,
    Upload,
    StagedUpload,
    StagedUploadChunk,
    User,
    ResourceKind,
    ContentUploadKind,
    ResourceAction,
    DirectoryAction,
    ResourceContent,
}

/// Broken internal invariants.
#[derive(Debug, Clone, Copy, PartialEq, Eq, Structural)]
pub enum Invariant {
    ResourceDirectoryMismatch,
    RelocationKeysEqual,
    RelocationMustAdvanceRevision,
    DeletionRevisionZero,
    DeletionKeysEqual,
    RevisionOverflow,
    DirectoryOutsideArchiveRoot,
    ReplacementReferencesMissingResource,
    ReplacementMissingBlobs,
    ReplacementRequiresUpload,
    ResourceMissingContent,
    ActionOutputForOtherInvocation,
    ActionUndeclaredView,
    ActionWithoutViewOrEffect,
    ActionUndeclaredEffect,
    ActionTooManyDirectoryEffects,
    ActionMultipleReplacements,
    ActionDeleteCombined,
    ActionEffectsWithoutWriteAccess,
    RelocationMissingDirectory,
    RelocationWithoutSourceOrDestination,
    UploadSizeOverflow,
    NonRootDirectoryWithoutParent,
    UnexpectedRecoveryEvent,
    ResourceRevisionOverflow,
    ActionReturnedInvalidBase64,
    ActionReturnedInvalidDirectoryId,
    StorageImportPathMissing,
    RootDirectoryMissing,
}

/// Conflicts with concurrent or persisted state.
#[derive(Debug, Clone, Copy, PartialEq, Eq, Structural)]
pub enum Conflict {
    ResourcePathOccupied,
    PhysicalSourceMissing,
    PhysicalDestinationExists,
    DeletionHasVisibleAndStagedBlobs,
    RelocationAmbiguousPhysicalState,
    ReplacementNoLongerMatches,
    ContentSizeMismatch,
    ContentChecksumMismatch,
    ContentExceedsDeclaredSize,
    UploadNotAcceptingChunks,
    UploadOffsetMismatch,
    UploadOffsetExceedsExpectedSize,
    UploadChunkExceedsDeclaredSize,
    UploadIncomplete,
    StagedUploadExceedsDeclaredSize,
    UploadCannotBeFinalized,
    UploadChecksumMismatch,
    UploadChunkChecksumMismatch,
    UploadOffsetChangedConcurrently,
    UploadStatusChangedConcurrently,
    BlobDisappearedDuringFinalization,
    BlobChangedDuringFinalization,
    GeneratedContentSizeChanged,
    IdempotencyKeyReused,
    DirectoryRelocationConflictsWithRevisions,
    DirectoryRelocationBothExist,
    DirectoryChangedDuringRelocation,
    DirectoryChangedDuringUpdate,
    RootDirectoryCannotBeUpdated,
    DirectoryCycle,
    DirectoryNameTaken,
    DirectoryNotEmpty,
    UsernameTaken,
    DirectoryChangedWhileActionExecuted,
    BlobMissingForChecksum,
    BlobChangedDuringChecksum,
    ResourceChangedDuringContentSync,
    ResourceChangedDuringStorageMove,
    ResourceChangedDuringFailureRecord,
    ResourceChangedDuringStorageRename,
}

/// Rejected operations that can never succeed for the given input.
#[derive(Debug, Clone, Copy, PartialEq, Eq, Structural)]
pub enum InvalidOperation {
    ReplacementRequiresExistingContent,
    ReservedStorageKey,
    NotAvailableForTextEditing,
}

/// Invalid configuration values.
#[derive(Debug, Clone, Copy, PartialEq, Eq, Structural)]
pub enum Configuration {
    PluginLimitsMustBePositive,
    ActionLimitsMustBePositive,
    EditLimitMustBePositive,
    CreateTreeRequiresWorkflowService,
    BlobSizeOverflow,
    MediaViewRequired,
    InlineMediaRequired,
    InvalidMedia,
}

/// Resource fields whose format is validated.
#[derive(Debug, Clone, Copy, PartialEq, Eq, Structural)]
pub enum FormatField {
    ReplacementExpectedRevision,
    ResourceName,
    DirectoryName,
    Checksum,
    IdempotencyKey,
}

/// The quantity a limit applies to.
#[derive(Debug, Clone, Copy, PartialEq, Eq, Structural)]
pub enum LimitSubject {
    ResourceTextContent,
    PluginActionContent,
    UploadChunk,
}

/// The compensation that failed after a storage error.
#[derive(Debug, Clone, Copy, PartialEq, Eq, Structural)]
pub enum StorageOperation {
    ContentReplacePublishRollback,
    ContentReplaceRollback,
    DirectoryRelocationRollback,
}

/// Errors reported by the core library.
#[derive(Debug)]
#[allow(inconsistent_fields)]
pub enum CoreError {
    InvalidStorageKey,
    InvalidDirectoryPath,
    InvalidFormat { field: FormatField },
    Invariant(Invariant),
    RevisionConflict { subject: Subject, id: u128 },
    Conflict(Conflict),
    NotFound { subject: Subject, id: u128 },
    Forbidden { action: &'static str, path: String },
    Configuration(Configuration),
    InvalidOperation(InvalidOperation),
    LimitExceeded { subject: LimitSubject, limit: u64, actual: u64 },
    Unsupported { subject: Subject },
    Storage { operation: StorageOperation, source: Box<CoreError> },
    WeakPassword,
}

impl CoreError {
    /// True for the conflict family of errors (`Conflict` and `RevisionConflict`).
    pub fn is_conflict(&self) -> (r: bool)
        ensures
            r == (self is Conflict || self is RevisionConflict),
    {
        match self {
            CoreError::Conflict(_) => true,
            CoreError::RevisionConflict { .. } => true,
            _ => false,
        }
    }
}

} // verus!
