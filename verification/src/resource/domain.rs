//! Durable intents recorded before operations that cross the database and Blob storage.

use crate::domain::ids::{ResourceContentReplacementId, ResourceId};
use crate::domain::path::StorageKey;
use crate::domain::resource::{ResourceContent, ResourceContentView};
use crate::error::{CoreError, FormatField, Invariant};
use vstd::prelude::*;

verus! {

/// Abstract value of a pending content replacement.
pub struct ResourceContentReplacementView {
    pub id: ResourceContentReplacementId,
    pub resource_id: ResourceId,
    pub expected_revision: u64,
    pub target_key: Seq<char>,
    pub staged_key: Seq<char>,
    pub backup_key: Seq<char>,
    pub replacement_content: ResourceContentView,
}

/// Durable intent recorded before any content replacement mutates the public Blob path.
#[derive(Debug)]
pub struct ResourceContentReplacement {
    id: ResourceContentReplacementId,
    resource_id: ResourceId,
    expected_revision: u64,
    target_key: StorageKey,
    staged_key: StorageKey,
    backup_key: StorageKey,
    replacement_content: ResourceContent,
}

impl View for ResourceContentReplacement {
    type V = ResourceContentReplacementView;

    closed spec fn view(&self) -> ResourceContentReplacementView {
        ResourceContentReplacementView {
            id: self.id,
            resource_id: self.resource_id,
            expected_revision: self.expected_revision,
            target_key: self.target_key@,
            staged_key: self.staged_key@,
            backup_key: self.backup_key@,
            replacement_content: self.replacement_content@,
        }
    }
}

impl ResourceContentReplacement {
    /// The expected revision of a replacement is never zero.
    #[verifier::type_invariant]
    pub open spec fn wf(self) -> bool {
        self@.expected_revision > 0
    }

    /// Record a new replacement intent with a fresh identity.
    pub fn new(
        resource_id: ResourceId,
        expected_revision: u64,
        target_key: StorageKey,
        staged_key: StorageKey,
        backup_key: StorageKey,
        replacement_content: ResourceContent,
    ) -> (r: Result<ResourceContentReplacement, CoreError>)
        ensures
            match r {
                Ok(p) => expected_revision > 0 && p@.resource_id == resource_id
                    && p@.expected_revision == expected_revision && p@.target_key == target_key@
                    && p@.staged_key == staged_key@ && p@.backup_key == backup_key@
                    && p@.replacement_content == replacement_content@,
                Err(e) => expected_revision == 0 && e == (CoreError::InvalidFormat {
                    field: FormatField::ReplacementExpectedRevision,
                }),
            },
    {
        Self::rehydrate(
            ResourceContentReplacementId::new(),
            resource_id,
            expected_revision,
            target_key,
            staged_key,
            backup_key,
            replacement_content,
        )
    }

    /// Rebuild a persisted replacement intent.
    pub fn rehydrate(
        id: ResourceContentReplacementId,
        resource_id: ResourceId,
        expected_revision: u64,
        target_key: StorageKey,
        staged_key: StorageKey,
        backup_key: StorageKey,
        replacement_content: ResourceContent,
    ) -> (r: Result<ResourceContentReplacement, CoreError>)
        ensures
            match r {
                Ok(p) => expected_revision > 0 && p@ == (ResourceContentReplacementView {
                    id,
                    resource_id,
                    expected_revision,
                    target_key: target_key@,
                    staged_key: staged_key@,
                    backup_key: backup_key@,
                    replacement_content: replacement_content@,
                }),
                Err(e) => expected_revision == 0 && e == (CoreError::InvalidFormat {
                    field: FormatField::ReplacementExpectedRevision,
                }),
            },
    {
        if expected_revision == 0 {
            return Err(
                CoreError::InvalidFormat { field: FormatField::ReplacementExpectedRevision },
            );
        }
        Ok(
            ResourceContentReplacement {
                id,
                resource_id,
                expected_revision,
                target_key,
                staged_key,
                backup_key,
                replacement_content,
            },
        )
    }

    pub fn id(&self) -> (r: ResourceContentReplacementId)
        ensures
            r == self@.id,
    {
        self.id
    }

    pub fn resource_id(&self) -> (r: ResourceId)
        ensures
            r == self@.resource_id,
    {
        self.resource_id
    }

    pub fn expected_revision(&self) -> (r: u64)
        ensures
            r == self@.expected_revision,
    {
        self.expected_revision
    }

    pub fn target_key(&self) -> (r: &StorageKey)
        ensures
            r@ == self@.target_key,
    {
        &self.target_key
    }

    pub fn staged_key(&self) -> (r: &StorageKey)
        ensures
            r@ == self@.staged_key,
    {
        &self.staged_key
    }

    pub fn backup_key(&self) -> (r: &StorageKey)
        ensures
            r@ == self@.backup_key,
    {
        &self.backup_key
    }

    pub fn replacement_content(&self) -> (r: &ResourceContent)
        ensures
            r@ == self@.replacement_content,
    {
        &self.replacement_content
    }
}

impl Clone for ResourceContentReplacement {
    fn clone(&self) -> (r: Self)
        ensures
            r@ == self@,
    {
        proof {
            use_type_invariant(self);
        }
        ResourceContentReplacement {
            id: self.id,
            resource_id: self.resource_id,
            expected_revision: self.expected_revision,
            target_key: self.target_key.clone(),
            staged_key: self.staged_key.clone(),
            backup_key: self.backup_key.clone(),
            replacement_content: self.replacement_content.clone(),
        }
    }
}

/// Abstract value of a pending permanent deletion.
pub struct ResourceDeletionView {
    pub resource_id: ResourceId,
    pub expected_revision: u64,
    pub source_key: Seq<char>,
    pub deletion_key: Seq<char>,
}

/// A pending permanent deletion. The intent is written before the visible Blob moves into the
/// internal deletion namespace, and outlives the Resource row so recovery can clean up.
#[derive(Debug)]
pub struct ResourceDeletion {
    resource_id: ResourceId,
    expected_revision: u64,
    source_key: StorageKey,
    deletion_key: StorageKey,
}

impl View for ResourceDeletion {
    type V = ResourceDeletionView;

    closed spec fn view(&self) -> ResourceDeletionView {
        ResourceDeletionView {
            resource_id: self.resource_id,
            expected_revision: self.expected_revision,
            source_key: self.source_key@,
            deletion_key: self.deletion_key@,
        }
    }
}

impl ResourceDeletion {
    /// A deletion expects a positive revision and stages the Blob under a different key.
    #[verifier::type_invariant]
    pub open spec fn wf(self) -> bool {
        self@.expected_revision > 0 && self@.source_key != self@.deletion_key
    }

    pub fn new(
        resource_id: ResourceId,
        expected_revision: u64,
        source_key: StorageKey,
        deletion_key: StorageKey,
    ) -> (r: Result<ResourceDeletion, CoreError>)
        ensures
            match r {
                Ok(d) => expected_revision > 0 && source_key@ != deletion_key@ && d@ == (
                ResourceDeletionView {
                    resource_id,
                    expected_revision,
                    source_key: source_key@,
                    deletion_key: deletion_key@,
                }),
                Err(e) => (expected_revision == 0 && e == CoreError::Invariant(
                    Invariant::DeletionRevisionZero,
                )) || (expected_revision > 0 && source_key@ == deletion_key@ && e
                    == CoreError::Invariant(Invariant::DeletionKeysEqual)),
            },
    {
        if expected_revision == 0 {
            return Err(CoreError::Invariant(Invariant::DeletionRevisionZero));
        }
        if source_key.same_as(&deletion_key) {
            return Err(CoreError::Invariant(Invariant::DeletionKeysEqual));
        }
        Ok(ResourceDeletion { resource_id, expected_revision, source_key, deletion_key })
    }

    pub fn resource_id(&self) -> (r: ResourceId)
        ensures
            r == self@.resource_id,
    {
        self.resource_id
    }

    pub fn expected_revision(&self) -> (r: u64)
        ensures
            r == self@.expected_revision,
    {
        self.expected_revision
    }

    pub fn source_key(&self) -> (r: &StorageKey)
        ensures
            r@ == self@.source_key,
    {
        &self.source_key
    }

    pub fn deletion_key(&self) -> (r: &StorageKey)
        ensures
            r@ == self@.deletion_key,
    {
        &self.deletion_key
    }
}

impl Clone for ResourceDeletion {
    fn clone(&self) -> (r: Self)
        ensures
            r@ == self@,
    {
        proof {
            use_type_invariant(self);
        }
        ResourceDeletion {
            resource_id: self.resource_id,
            expected_revision: self.expected_revision,
            source_key: self.source_key.clone(),
            deletion_key: self.deletion_key.clone(),
        }
    }
}

} // verus!
