use asset_core::domain::checksum::{calculate_checksum, hex_sha256, Checksum};
use asset_core::domain::ids::{DirectoryId, ResourceContentReplacementId, UserId};
use asset_core::resource::upload::UploadSession;
use asset_core::error::{InvalidOperation, Invariant, Subject};
use asset_core::domain::path::{DirectoryPath, StorageKey};
use asset_core::domain::resource::{DirectoryLocation, Resource, ResourceContent, ResourceKind};
use asset_core::error::{Conflict, CoreError};
use asset_core::resource::content::{
    accept_replacement_chunk, bytes_replacement_keys, bytes_replacement_step, plan_upload_replacement, begin_content_replacement, replacement_commit_step,
    replacement_staging_step, ReplacementCommit, ReplacementStaging,
};
use asset_core::resource::contract::ReplaceResourceContent;
use asset_core::resource::domain::ResourceContentReplacement;
use asset_core::resource::path_resolver::{replacement_backup_key, replacement_staging_key};
use asset_core::resource::query::LocatedResource;
use asset_core::resource::recovery::{
    replacement_recovery_step, RecoveryEvent, ReplacementRecovery, StorageAction,
};

const MAX_TEXT_BYTES: u64 = 4 * 1024 * 1024;

/// Blob storage, the Resource store and the replacement intents held in memory; every
/// Resource lives in the root Directory.
struct Store {
    blobs: Vec<(String, Vec<u8>)>,
    resources: Vec<Resource>,
    intents: Vec<ResourceContentReplacement>,
    incoming: Vec<u8>,
    fail_next_conditional_save: bool,
}

impl Store {
    fn new() -> Store {
        Store {
            blobs: Vec::new(),
            resources: Vec::new(),
            intents: Vec::new(),
            incoming: Vec::new(),
            fail_next_conditional_save: false,
        }
    }

    fn get(&self, key: &StorageKey) -> Option<Vec<u8>> {
        self.blobs.iter().find(|(k, _)| k == key.as_str()).map(|(_, d)| d.clone())
    }

    fn contains(&self, key: &StorageKey) -> bool {
        self.get(key).is_some()
    }

    fn put(&mut self, key: &StorageKey, data: &[u8]) {
        self.blobs.retain(|(k, _)| k != key.as_str());
        self.blobs.push((key.as_str().to_string(), data.to_vec()));
    }

    fn remove(&mut self, key: &StorageKey) {
        self.blobs.retain(|(k, _)| k != key.as_str());
    }

    fn move_if_absent(&mut self, from: &StorageKey, to: &StorageKey) -> Result<(), CoreError> {
        if self.contains(to) {
            return Err(CoreError::Conflict(Conflict::PhysicalDestinationExists));
        }
        let Some(data) = self.get(from) else {
            return Err(CoreError::Conflict(Conflict::PhysicalSourceMissing));
        };
        self.remove(from);
        self.put(to, &data);
        Ok(())
    }

    fn locate(&self, resource: &Resource) -> LocatedResource {
        LocatedResource::new(
            resource.clone(),
            DirectoryLocation::new(DirectoryId::root(), DirectoryPath::root()),
        )
        .unwrap()
    }

    fn find(&self, resource: &Resource) -> Resource {
        self.resources.iter().find(|r| r.id() == resource.id()).unwrap().clone()
    }

    fn upload_text(&mut self, name: &str, data: &[u8]) -> Resource {
        let mut resource =
            Resource::create(name, DirectoryId::root(), ResourceKind::try_new("core:text").unwrap()).unwrap();
        let checksum = calculate_checksum(data).unwrap();
        resource
            .attach_content(ResourceContent::verified(
                data.len() as u64,
                checksum,
                Some("text/markdown".to_string()),
                None,
            ))
            .unwrap();
        self.put(&StorageKey::new(name).unwrap(), data);
        self.resources.push(resource.clone());
        resource
    }

    fn perform(&mut self, action: StorageAction) -> Result<RecoveryEvent, StorageAction> {
        let outcome = |r: Result<(), CoreError>| match r {
            Ok(()) => RecoveryEvent::Completed,
            Err(e) => RecoveryEvent::Failed(e),
        };
        Ok(match action {
            StorageAction::FindResource(id) => RecoveryEvent::ResourceFound(
                self.resources.iter().find(|r| r.id() == id).map(|r| self.locate(r)),
            ),
            StorageAction::LoadResource(id) => {
                RecoveryEvent::ResourceLoaded(self.resources.iter().find(|r| r.id() == id).cloned())
            }
            StorageAction::BlobExists(key) => RecoveryEvent::BlobPresence(self.contains(&key)),
            StorageAction::MoveIfAbsent { from, to } => outcome(self.move_if_absent(&from, &to)),
            StorageAction::DeleteBlob(key) | StorageAction::DiscardStaged { key, .. } => {
                self.remove(&key);
                RecoveryEvent::Completed
            }
            StorageAction::PublishStaged { staged, to, .. } => outcome(self.move_if_absent(&staged, &to)),
            StorageAction::UpdateIfRevision { desired, expected_revision } => {
                if self.fail_next_conditional_save {
                    self.fail_next_conditional_save = false;
                    return Ok(RecoveryEvent::Failed(CoreError::InvalidStorageKey));
                }
                match self.resources.iter_mut().find(|r| r.id() == desired.id()) {
                    Some(stored) if stored.revision() == expected_revision => {
                        *stored = desired;
                        RecoveryEvent::CasApplied(true)
                    }
                    _ => RecoveryEvent::CasApplied(false),
                }
            }
            StorageAction::SaveReplacementIntent(intent) => {
                self.intents.push(intent);
                RecoveryEvent::Completed
            }
            StorageAction::RemoveReplacementIntent(id) => {
                self.intents.retain(|i| i.id() != id);
                RecoveryEvent::Completed
            }
            StorageAction::CreateStaged(key) => {
                self.put(&key, b"");
                RecoveryEvent::Completed
            }
            StorageAction::StageContent { key, expected_size, max_size } => {
                let data = std::mem::take(&mut self.incoming);
                let mut received = 0;
                for chunk in data.chunks(4) {
                    match accept_replacement_chunk(received, chunk.len() as u64, expected_size, max_size) {
                        Ok(total) => received = total,
                        Err(e) => return Ok(RecoveryEvent::Failed(e)),
                    }
                }
                self.put(&key, &data);
                RecoveryEvent::ContentStaged {
                    bytes_written: received,
                    checksum: calculate_checksum(&data).unwrap(),
                }
            }
            StorageAction::RunReplacementCommit { replacement, desired, staged_size } => {
                match self.run_commit(&replacement, &desired, staged_size) {
                    Ok(()) => RecoveryEvent::Completed,
                    Err(e) => RecoveryEvent::Failed(e),
                }
            }
            finished => return Err(finished),
        })
    }

    fn run_commit(&mut self, replacement: &ResourceContentReplacement, desired: &Resource, staged_size: u64) -> Result<(), CoreError> {
        let (mut state, mut action) =
            replacement_commit_step(replacement, desired, staged_size, ReplacementCommit::Start, RecoveryEvent::Started);
        loop {
            match self.perform(action) {
                Ok(event) => {
                    let (s, a) = replacement_commit_step(replacement, desired, staged_size, state, event);
                    state = s;
                    action = a;
                }
                Err(StorageAction::Finish(result)) => return result,
                Err(other) => panic!("unexpected end {other:?}"),
            }
        }
    }

    fn replace_text(&mut self, resource: &Resource, command: ReplaceResourceContent, data: &[u8]) -> Result<Resource, CoreError> {
        let located = self.locate(&self.find(resource));
        let capabilities = vec!["text_edit".to_string()];
        let keys = begin_content_replacement(&located, &command, &capabilities, MAX_TEXT_BYTES)?;
        self.incoming = data.to_vec();
        let (mut state, mut action) = replacement_staging_step(
            &located,
            &command,
            MAX_TEXT_BYTES,
            &keys,
            ReplacementStaging::Start,
            RecoveryEvent::Started,
        );
        loop {
            match self.perform(action) {
                Ok(event) => {
                    let (s, a) = replacement_staging_step(&located, &command, MAX_TEXT_BYTES, &keys, state, event);
                    state = s;
                    action = a;
                }
                Err(StorageAction::ReturnResource(resource)) => return Ok(resource),
                Err(StorageAction::Finish(Err(e))) => return Err(e),
                Err(other) => panic!("unexpected end {other:?}"),
            }
        }
    }

    fn resume_content_replacements(&mut self) -> Result<usize, CoreError> {
        let pending = self.intents.clone();
        for intent in &pending {
            let (mut state, mut action) =
                replacement_recovery_step(intent, ReplacementRecovery::Start, RecoveryEvent::Started);
            loop {
                match self.perform(action) {
                    Ok(event) => {
                        let (s, a) = replacement_recovery_step(intent, state, event);
                        state = s;
                        action = a;
                    }
                    Err(StorageAction::Finish(result)) => {
                        result?;
                        break;
                    }
                    Err(other) => panic!("unexpected end {other:?}"),
                }
            }
        }
        Ok(pending.len())
    }
}

fn checksum_of(data: &[u8]) -> Checksum {
    Checksum::sha256(&hex_sha256(data)).unwrap()
}

#[test]
fn streaming_text_replacement_updates_content_and_revision() {
    let mut store = Store::new();
    let key = StorageKey::new("streamed.md").unwrap();
    let resource = store.upload_text("streamed.md", b"# Old");
    let replacement = b"# Streamed\n\nUpdated.";
    let checksum = checksum_of(replacement);
    let command = ReplaceResourceContent::new(replacement.len() as u64, checksum.clone(), resource.revision())
        .with_mime_type("text/markdown");

    let updated = store.replace_text(&resource, command, replacement).unwrap();

    assert_eq!(updated.revision(), resource.revision() + 1);
    assert_eq!(updated.content().unwrap().checksum(), Some(&checksum));
    assert_eq!(store.get(&key), Some(replacement.to_vec()));
    assert_eq!(store.find(&resource).revision(), updated.revision());
    assert_eq!(store.blobs.len(), 1);
    assert!(store.intents.is_empty());
}

#[test]
fn streaming_text_replacement_restores_the_original_blob_when_cas_fails() {
    let mut store = Store::new();
    let key = StorageKey::new("rollback.md").unwrap();
    let original = b"# Original";
    let resource = store.upload_text("rollback.md", original);
    let replacement = b"# Replacement";
    let command = ReplaceResourceContent::new(replacement.len() as u64, checksum_of(replacement), resource.revision());
    store.fail_next_conditional_save = true;

    let error = store.replace_text(&resource, command, replacement).unwrap_err();

    assert!(matches!(error, CoreError::InvalidStorageKey));
    assert_eq!(store.get(&key), Some(original.to_vec()));
    assert_eq!(store.find(&resource).revision(), resource.revision());
}

#[test]
fn streaming_text_replacement_rejects_bad_checksums_and_oversized_content() {
    let mut store = Store::new();
    let key = StorageKey::new("validated.md").unwrap();
    let original = b"# Original";
    let resource = store.upload_text("validated.md", original);
    let replacement = b"changed";
    let bad_checksum = Checksum::sha256(&"0".repeat(64)).unwrap();
    let error = store
        .replace_text(
            &resource,
            ReplaceResourceContent::new(replacement.len() as u64, bad_checksum, resource.revision()),
            replacement,
        )
        .unwrap_err();
    assert!(matches!(error, CoreError::Conflict(_)));
    assert_eq!(store.get(&key), Some(original.to_vec()));

    let error = store
        .replace_text(
            &resource,
            ReplaceResourceContent::new(
                MAX_TEXT_BYTES + 1,
                Checksum::sha256(&"0".repeat(64)).unwrap(),
                resource.revision(),
            ),
            b"",
        )
        .unwrap_err();
    assert!(matches!(error, CoreError::LimitExceeded { .. }));
    assert_eq!(store.get(&key), Some(original.to_vec()));
    assert_eq!(store.blobs.len(), 1);
}

fn interrupted_replacement(store: &mut Store, name: &str, replacement: &[u8]) -> (Resource, StorageKey, StorageKey, StorageKey, ResourceContent) {
    let target = StorageKey::new(name).unwrap();
    let resource = store.upload_text(name, b"# Original");
    let content = ResourceContent::verified(
        replacement.len() as u64,
        checksum_of(replacement),
        Some("text/markdown".to_string()),
        None,
    );
    let id = ResourceContentReplacementId::new();
    let staged = replacement_staging_key(id).unwrap();
    let backup = replacement_backup_key(id).unwrap();
    let pending = ResourceContentReplacement::rehydrate(
        id,
        resource.id(),
        resource.revision(),
        target.clone(),
        staged.clone(),
        backup.clone(),
        content.clone(),
    )
    .unwrap();
    store.intents.push(pending);
    store.put(&staged, replacement);
    store.move_if_absent(&target, &backup).unwrap();
    store.put(&target, replacement);
    (resource, target, staged, backup, content)
}

#[test]
fn startup_recovery_rolls_back_a_published_replacement_without_a_resource_commit() {
    let mut store = Store::new();
    let (resource, target, staged, backup, _) =
        interrupted_replacement(&mut store, "interrupted.md", b"# Interrupted replacement");

    assert_eq!(store.resume_content_replacements().unwrap(), 1);

    assert_eq!(store.get(&target), Some(b"# Original".to_vec()));
    assert!(!store.contains(&backup));
    assert!(!store.contains(&staged));
    assert!(store.find(&resource).same_as(&resource));
    assert!(store.intents.is_empty());
}

#[test]
fn startup_recovery_keeps_a_committed_replacement_and_cleans_internal_blobs() {
    let mut store = Store::new();
    let replacement = b"# Committed replacement";
    let (resource, target, staged, backup, content) =
        interrupted_replacement(&mut store, "committed.md", replacement);
    let mut committed = resource.clone();
    committed.attach_content(content).unwrap();
    store.resources.retain(|r| r.id() != resource.id());
    store.resources.push(committed);

    assert_eq!(store.resume_content_replacements().unwrap(), 1);

    assert_eq!(store.get(&target), Some(replacement.to_vec()));
    assert!(!store.contains(&backup));
    assert!(!store.contains(&staged));
    assert!(store.intents.is_empty());
}

fn located_note(content: Option<&[u8]>) -> LocatedResource {
    let mut resource = Resource::create("note.txt", DirectoryId::root(), ResourceKind::fallback()).unwrap();
    if let Some(bytes) = content {
        resource
            .attach_content(ResourceContent::verified(
                bytes.len() as u64,
                Checksum::sha256(&hex_sha256(bytes)).unwrap(),
                None,
                None,
            ))
            .unwrap();
    }
    LocatedResource::new(resource, DirectoryLocation::new(DirectoryId::root(), DirectoryPath::root())).unwrap()
}

#[test]
fn uploaded_replacements_commit_only_against_the_revision_they_were_opened_for() {
    let new_sum = Checksum::sha256(&hex_sha256(b"new text")).unwrap();
    let session = UploadSession::new(
        UserId::new(),
        "note.txt",
        DirectoryId::root(),
        ResourceKind::fallback(),
        Some("text/plain".to_string()),
        8,
        new_sum.clone(),
    )
    .unwrap();

    let located = located_note(Some(b"old"));
    let revision = located.resource().revision();
    let plan = plan_upload_replacement(&session, Some(revision), Some(located), new_sum.clone()).unwrap();
    assert_eq!(plan.target_key.as_str(), "note.txt");
    assert!(plan.backup_key.as_str().starts_with(".asset-hub/content-backups/"));
    assert_eq!(plan.content.size(), 8);
    assert_eq!(plan.content.checksum().unwrap().value(), new_sum.value());
    assert_eq!(plan.content.mime_type(), Some("text/plain"));

    assert!(matches!(
        plan_upload_replacement(&session, None, Some(located_note(Some(b"old"))), new_sum.clone()),
        Err(CoreError::Invariant(Invariant::ReplacementRequiresUpload))
    ));
    assert!(matches!(
        plan_upload_replacement(&session, Some(revision), None, new_sum.clone()),
        Err(CoreError::NotFound { subject: Subject::Resource, .. })
    ));
    assert!(matches!(
        plan_upload_replacement(&session, Some(revision + 1), Some(located_note(Some(b"old"))), new_sum.clone()),
        Err(CoreError::RevisionConflict { subject: Subject::Resource, .. })
    ));
    assert!(matches!(
        plan_upload_replacement(&session, Some(1), Some(located_note(None)), new_sum),
        Err(CoreError::InvalidOperation(InvalidOperation::ReplacementRequiresExistingContent))
    ));
}

#[test]
fn in_memory_replacements_stage_every_byte_before_committing() {
    let located = located_note(Some(b"old"));
    let resource = located.resource().clone();
    let keys = bytes_replacement_keys(located.storage_key().unwrap()).unwrap();
    assert_eq!(keys.target_key.as_str(), "note.txt");
    assert!(keys.staging_key.as_str().starts_with(".asset-hub/"));
    assert!(keys.backup_key.as_str().starts_with(".asset-hub/content-backups/"));
    let sum = Checksum::sha256(&hex_sha256(b"new text")).unwrap();
    let content = ResourceContent::verified(8, sum.clone(), Some("text/plain".to_string()), None);

    let (state, action) =
        bytes_replacement_step(&resource, &keys, &content, 8, ReplacementStaging::Start, RecoveryEvent::Started);
    assert!(matches!(&action, StorageAction::CreateStaged(k) if k.as_str() == keys.staging_key.as_str()));
    let (state, action) = bytes_replacement_step(&resource, &keys, &content, 8, state, RecoveryEvent::Completed);
    assert!(matches!(&action, StorageAction::StageBytes(k) if k.as_str() == keys.staging_key.as_str()));
    let (state, action) = bytes_replacement_step(
        &resource,
        &keys,
        &content,
        8,
        state,
        RecoveryEvent::ContentStaged { bytes_written: 8, checksum: sum.clone() },
    );
    match &action {
        StorageAction::RunReplacementCommit { replacement, desired, staged_size } => {
            assert_eq!(*staged_size, 8);
            assert_eq!(replacement.resource_id(), resource.id());
            assert_eq!(replacement.expected_revision(), resource.revision());
            assert_eq!(replacement.target_key().as_str(), "note.txt");
            assert_eq!(replacement.staged_key().as_str(), keys.staging_key.as_str());
            assert_eq!(replacement.replacement_content().size(), 8);
            assert_eq!(desired.content().unwrap().checksum().unwrap().value(), sum.value());
            assert_eq!(desired.revision(), resource.revision() + 1);
        }
        other => panic!("expected the commit, got {other:?}"),
    }
    let (_, action) = bytes_replacement_step(&resource, &keys, &content, 8, state, RecoveryEvent::Completed);
    assert!(matches!(&action, StorageAction::ReturnResource(r) if r.revision() == resource.revision() + 1));

    let (state, action) = bytes_replacement_step(
        &resource,
        &keys,
        &content,
        8,
        ReplacementStaging::AwaitStaged,
        RecoveryEvent::ContentStaged { bytes_written: 5, checksum: sum },
    );
    assert!(matches!(&action, StorageAction::DiscardStaged { key, size: 5 } if key.as_str() == keys.staging_key.as_str()));
    let (_, action) = bytes_replacement_step(&resource, &keys, &content, 8, state, RecoveryEvent::Completed);
    assert!(matches!(action, StorageAction::Finish(Err(CoreError::Conflict(Conflict::ContentSizeMismatch)))));
}
