use asset_core::domain::checksum::hex_sha256;
use asset_core::domain::ids::DirectoryId;
use asset_core::domain::path::{DirectoryPath, StorageKey};
use asset_core::domain::resource::{
    ContentVerificationStatus, DirectoryLocation, Resource, ResourceKind,
};
use asset_core::error::CoreError;
use asset_core::resource::query::LocatedResource;
use asset_core::resource::reconciliation::{
    needs_metadata_recovery, reconcile_key_order, BlobDisposition, ReconciliationPass,
    ScannedBlob, StorageReconciliationReport,
};
use asset_core::resource::storage_sync::{
    blob_sync_step, rename_sync_step, BlobSync, RenameSync, StoredBlobChecksum, SyncAction,
    SyncEvent,
};
use asset_core::resource::upload_flow::{accept_content_kind, choose_content_kind};
use std::time::Duration;

/// Blob storage, Directory store and Resource store held in memory.
struct World {
    blobs: Vec<(String, Vec<u8>, i64)>,
    physical_directories: Vec<String>,
    clock: i64,
    directories: Vec<(DirectoryId, String)>,
    resources: Vec<Resource>,
    fail_scan_after: Option<usize>,
    fail_checksum: bool,
}

impl World {
    fn new() -> World {
        World {
            blobs: Vec::new(),
            physical_directories: Vec::new(),
            clock: 0,
            directories: vec![(DirectoryId::root(), String::new())],
            resources: Vec::new(),
            fail_scan_after: None,
            fail_checksum: false,
        }
    }

    fn ensure_directory(&mut self, path: &str) {
        if !self.physical_directories.iter().any(|d| d == path) {
            self.physical_directories.push(path.to_string());
        }
    }

    fn put(&mut self, key: &StorageKey, data: &[u8]) {
        self.clock += 1;
        let clock = self.clock;
        self.blobs.retain(|(k, _, _)| k != key.as_str());
        self.blobs.push((key.as_str().to_string(), data.to_vec(), clock));
    }

    fn delete(&mut self, key: &StorageKey) {
        self.blobs.retain(|(k, _, _)| k != key.as_str());
    }

    fn move_blob(&mut self, from: &StorageKey, to: &StorageKey) {
        for blob in self.blobs.iter_mut() {
            if blob.0 == from.as_str() {
                blob.0 = to.as_str().to_string();
            }
        }
    }

    fn inspect(&self, key: &StorageKey) -> Option<ScannedBlob> {
        self.blobs
            .iter()
            .find(|(k, _, _)| k == key.as_str())
            .map(|(k, data, modified_at)| ScannedBlob {
                key: StorageKey::new(k).unwrap(),
                size: data.len() as u64,
                mime_type: None,
                modified_at: *modified_at,
            })
    }

    fn location_of(&self, id: DirectoryId) -> DirectoryLocation {
        let (id, path) = self.directories.iter().find(|(d, _)| *d == id).unwrap();
        DirectoryLocation::new(*id, DirectoryPath::from_path(path).unwrap())
    }

    fn ensure_path(&mut self, path: &DirectoryPath) -> DirectoryLocation {
        if let Some((id, _)) = self.directories.iter().find(|(_, p)| p == path.path()) {
            return DirectoryLocation::new(*id, path.clone());
        }
        let id = DirectoryId::new();
        self.directories.push((id, path.path().to_string()));
        DirectoryLocation::new(id, path.clone())
    }

    fn located(&self, resource: &Resource) -> LocatedResource {
        LocatedResource::new(resource.clone(), self.location_of(resource.directory_id())).unwrap()
    }

    fn all_active(&self) -> Vec<LocatedResource> {
        self.resources.iter().map(|r| self.located(r)).collect()
    }

    fn find_by_path(&self, directory: &DirectoryPath, name: &str) -> Option<LocatedResource> {
        self.resources
            .iter()
            .map(|r| self.located(r))
            .find(|l| l.directory().path() == directory && l.resource().name() == name)
    }

    fn checksum(&self, key: &StorageKey, expected_size: u64) -> Result<asset_core::domain::checksum::Checksum, CoreError> {
        if self.fail_checksum {
            return Err(CoreError::InvalidStorageKey);
        }
        let found = self.blobs.iter().find(|(k, _, _)| k == key.as_str());
        let mut checksum = StoredBlobChecksum::begin(found.is_some())?;
        if let Some((_, data, _)) = found {
            for chunk in data.chunks(3) {
                checksum.absorb(chunk)?;
            }
        }
        checksum.finish(expected_size)
    }

    fn perform(&mut self, action: SyncAction) -> Result<SyncEvent, Result<(), CoreError>> {
        Ok(match action {
            SyncAction::Inspect(key) => SyncEvent::Inspected(self.inspect(&key)),
            SyncAction::ComputeChecksum { key, expected_size } => match self.checksum(&key, expected_size) {
                Ok(c) => SyncEvent::ChecksumComputed(c),
                Err(error) => {
                    let message = format!("{error:?}");
                    SyncEvent::ChecksumFailed { error, message }
                }
            },
            SyncAction::FindByPath { directory, name } => {
                SyncEvent::ResourceFound(self.find_by_path(&directory, &name))
            }
            SyncAction::ListActiveResources => SyncEvent::ResourcesListed(self.all_active()),
            SyncAction::ResolveKind { .. } => {
                let kind = choose_content_kind(None, None);
                SyncEvent::KindResolved(accept_content_kind(kind, true, true).unwrap())
            }
            SyncAction::EnsurePath(path) => SyncEvent::DirectoryEnsured(self.ensure_path(&path)),
            SyncAction::SaveIfUnchanged { resource, expected_revision } => {
                let slot = self.resources.iter_mut().find(|r| r.id() == resource.id());
                match slot {
                    Some(stored) if stored.revision() == expected_revision => {
                        *stored = resource;
                        SyncEvent::Applied(true)
                    }
                    _ => SyncEvent::Applied(false),
                }
            }
            SyncAction::RemoveIfUnchanged { id, revision } => {
                let before = self.resources.len();
                self.resources.retain(|r| !(r.id() == id && r.revision() == revision));
                SyncEvent::Applied(self.resources.len() != before)
            }
            SyncAction::Save(resource) => {
                self.resources.push(resource);
                SyncEvent::Completed
            }
            SyncAction::RunKeySync(key) => match self.run_blob_sync(BlobSync::Start { key }) {
                Ok(()) => SyncEvent::Completed,
                Err(e) => SyncEvent::Failed(e),
            },
            SyncAction::RunBlobSync(blob) => match self.run_blob_sync(BlobSync::Scanned { blob }) {
                Ok(()) => SyncEvent::Completed,
                Err(e) => SyncEvent::Failed(e),
            },
            SyncAction::Finish(result) => return Err(result),
        })
    }

    fn run_blob_sync(&mut self, start: BlobSync) -> Result<(), CoreError> {
        let (mut state, mut action) = blob_sync_step(start, SyncEvent::Started);
        loop {
            let event = match self.perform(action) {
                Ok(event) => event,
                Err(result) => return result,
            };
            let (next_state, next_action) = blob_sync_step(state, event);
            state = next_state;
            action = next_action;
        }
    }

    fn reconcile_storage_rename(&mut self, from: &StorageKey, to: &StorageKey) -> Result<(), CoreError> {
        let (mut state, mut action) = rename_sync_step(from, to, RenameSync::Start, SyncEvent::Started);
        loop {
            let event = match self.perform(action) {
                Ok(event) => event,
                Err(result) => return result,
            };
            let (next_state, next_action) = rename_sync_step(from, to, state, event);
            state = next_state;
            action = next_action;
        }
    }

    fn scan(&self) -> (Vec<String>, Vec<ScannedBlob>) {
        let blobs = self
            .blobs
            .iter()
            .map(|(k, _, _)| self.inspect(&StorageKey::new(k).unwrap()).unwrap())
            .collect();
        (self.physical_directories.clone(), blobs)
    }

    fn reconcile(&mut self, force_checksum: bool, defer: bool) -> Result<StorageReconciliationReport, CoreError> {
        let mut pass = ReconciliationPass::begin(self.all_active(), force_checksum, defer);
        let (directories, blobs) = self.scan();
        let mut seen = 0;
        for directory in directories {
            let path = DirectoryPath::from_path(&directory).unwrap();
            self.ensure_path(&path);
            pass.record_directory(path);
        }
        for blob in blobs {
            seen += 1;
            if pass.record_blob(&blob) == BlobDisposition::Rehash {
                self.run_blob_sync(BlobSync::Start { key: blob.key.clone() })?;
                pass.record_hashed();
            }
            if self.fail_scan_after == Some(seen) {
                return Err(CoreError::InvalidStorageKey);
            }
        }
        for candidate in pass.removal_candidates() {
            let key = candidate.storage_key()?;
            if self.inspect(&key).is_none() {
                let resource = candidate.resource();
                let event = self.perform(SyncAction::RemoveIfUnchanged {
                    id: resource.id(),
                    revision: resource.revision(),
                });
                if matches!(event, Ok(SyncEvent::Applied(true))) {
                    pass.record_removed();
                }
            }
        }
        pass.finish(Duration::ZERO, Duration::ZERO).map(|(report, _)| report)
    }

    fn recover_metadata(&mut self) -> Result<StorageReconciliationReport, CoreError> {
        let mut pass = ReconciliationPass::begin(self.all_active(), false, true);
        let (directories, blobs) = self.scan();
        for directory in directories {
            let path = DirectoryPath::from_path(&directory).unwrap();
            self.ensure_path(&path);
            pass.record_directory(path);
        }
        for blob in blobs {
            pass.note_blob_seen(&blob.key);
            let Some(current) = self.inspect(&blob.key) else {
                continue;
            };
            self.run_blob_sync(BlobSync::Recover { blob: current.clone() })?;
            pass.record_recovered(current.key.clone());
        }
        pass.finish(Duration::ZERO, Duration::ZERO).map(|(report, _)| report)
    }

    fn reconcile_storage_on_startup(&mut self) -> Result<StorageReconciliationReport, CoreError> {
        if needs_metadata_recovery(&self.all_active()) {
            self.recover_metadata()
        } else {
            self.reconcile(false, true)
        }
    }

    fn reconcile_storage_keys(&mut self, keys: &[StorageKey]) -> Result<(), CoreError> {
        let keys = keys.to_vec();
        let present: Vec<bool> = keys.iter().map(|k| self.inspect(k).is_some()).collect();
        for key in reconcile_key_order(&keys, &present) {
            self.run_blob_sync(BlobSync::Start { key })?;
        }
        Ok(())
    }
}

#[test]
fn storage_reconciliation_creates_updates_and_removes_resources() {
    let mut world = World::new();
    let directory = DirectoryPath::from_path("external").unwrap();
    let key = StorageKey::new("external/note.txt").unwrap();
    world.ensure_directory("external");
    world.put(&key, b"first");

    world.reconcile(false, false).unwrap();
    let first = world.find_by_path(&directory, "note.txt").unwrap();
    assert_eq!(first.resource().content().unwrap().size(), 5);

    world.put(&key, b"second version");
    world.reconcile_storage_keys(std::slice::from_ref(&key)).unwrap();
    let updated = world.find_by_path(&directory, "note.txt").unwrap();
    assert_eq!(updated.resource().id(), first.resource().id());
    assert_eq!(updated.resource().content().unwrap().size(), 14);
    assert_ne!(
        updated.resource().content().unwrap().checksum().unwrap().value(),
        first.resource().content().unwrap().checksum().unwrap().value()
    );

    world.delete(&key);
    world.reconcile_storage_keys(std::slice::from_ref(&key)).unwrap();
    assert!(world.find_by_path(&directory, "note.txt").is_none());
}

#[test]
fn startup_reconciliation_hashes_only_new_or_changed_files() {
    let mut world = World::new();
    let key = StorageKey::new("library/book.txt").unwrap();
    world.put(&key, b"first");

    let initial = world.reconcile(false, false).unwrap();
    assert_eq!(initial.files, 1);
    assert_eq!(initial.hashed_files, 1);
    assert_eq!(initial.unchanged_files, 0);

    let unchanged = world.reconcile(false, false).unwrap();
    assert_eq!(unchanged.hashed_files, 0);
    assert_eq!(unchanged.unchanged_files, 1);

    world.put(&key, b"other");
    let changed = world.reconcile(false, false).unwrap();
    assert_eq!(changed.hashed_files, 1);
    assert_eq!(changed.unchanged_files, 0);

    let forced = world.reconcile(true, false).unwrap();
    assert_eq!(forced.hashed_files, 1);
    assert_eq!(forced.unchanged_files, 0);
}

#[test]
fn storage_reconciliation_preserves_spaces_in_discovered_paths() {
    let mut world = World::new();
    let directory = DirectoryPath::from_path(" external files / project A ").unwrap();
    let name = " draft  01.txt ";
    let key = StorageKey::new(" external files / project A / draft  01.txt ").unwrap();
    world.ensure_directory(" external files / project A ");
    world.put(&key, b"draft");

    world.reconcile(false, false).unwrap();

    let resource = world.find_by_path(&directory, name).unwrap();
    assert_eq!(resource.resource().name(), name);
    assert_eq!(resource.directory().path(), &directory);
    assert_eq!(resource.storage_key().unwrap(), key);
    assert_eq!(
        resource.resource().content().unwrap().checksum().unwrap().value(),
        hex_sha256(b"draft")
    );
}

#[test]
fn storage_reconciliation_preserves_resource_id_on_file_rename() {
    let mut world = World::new();
    let from_directory = DirectoryPath::from_path("incoming").unwrap();
    let to_directory = DirectoryPath::from_path("library").unwrap();
    let from = StorageKey::new("incoming/book.txt").unwrap();
    let to = StorageKey::new("library/renamed.txt").unwrap();
    world.ensure_directory("incoming");
    world.ensure_directory("library");
    world.put(&from, b"content");
    world.reconcile(false, false).unwrap();
    let original = world.find_by_path(&from_directory, "book.txt").unwrap();

    world.move_blob(&from, &to);
    world.reconcile_storage_rename(&from, &to).unwrap();
    let renamed = world.find_by_path(&to_directory, "renamed.txt").unwrap();

    assert_eq!(renamed.resource().id(), original.resource().id());
    assert!(world.find_by_path(&from_directory, "book.txt").is_none());
}

#[test]
fn storage_reconciliation_does_not_delete_resources_after_stream_failure() {
    let mut world = World::new();
    let directory = DirectoryPath::root();
    let retained = StorageKey::new("a.txt").unwrap();
    let externally_deleted = StorageKey::new("b.txt").unwrap();
    world.put(&retained, b"a");
    world.put(&externally_deleted, b"b");
    world.reconcile(false, false).unwrap();

    world.delete(&externally_deleted);
    world.fail_scan_after = Some(1);
    assert!(world.reconcile(false, false).is_err());

    assert!(world.find_by_path(&directory, "b.txt").is_some());
}

#[test]
fn empty_repository_startup_recovers_metadata_before_checksum_verification() {
    let mut world = World::new();
    let directory = DirectoryPath::from_path("library").unwrap();
    let key = StorageKey::new("library/book.txt").unwrap();
    let second_key = StorageKey::new("library/second.txt").unwrap();
    world.put(&key, b"first");
    world.put(&second_key, b"second");

    let recovered = world.reconcile_storage_on_startup().unwrap();
    assert_eq!(recovered.files, 2);
    assert_eq!(recovered.hashed_files, 0);
    assert_eq!(recovered.pending_verification_keys(), &[key.clone(), second_key.clone()]);

    let pending = world.find_by_path(&directory, "book.txt").unwrap();
    let content = pending.resource().content().unwrap();
    assert_eq!(content.verification_status(), ContentVerificationStatus::Pending);
    assert_eq!(content.size(), 5);
    assert!(content.checksum().is_none());

    world.reconcile_storage_keys(std::slice::from_ref(&key)).unwrap();
    let verified = world.find_by_path(&directory, "book.txt").unwrap();
    let content = verified.resource().content().unwrap();
    assert_eq!(content.verification_status(), ContentVerificationStatus::Verified);
    assert_eq!(content.checksum().unwrap().value(), hex_sha256(b"first"));

    let resumed = world.reconcile_storage_on_startup().unwrap();
    assert_eq!(resumed.hashed_files, 0);
    assert_eq!(resumed.unchanged_files, 1);
    assert_eq!(resumed.pending_verification_keys(), &[second_key]);
}

#[test]
fn rehashing_a_vanished_blob_records_a_missing_rename_source_under_its_new_path() {
    let mut world = World::new();
    let old_key = StorageKey::new("old/photo.bin").unwrap();
    world.put(&old_key, b"pixels");
    world.reconcile(false, false).unwrap();
    let original = world
        .find_by_path(&DirectoryPath::from_path("old").unwrap(), "photo.bin")
        .unwrap();

    let new_key = StorageKey::new("new/photo-renamed.bin").unwrap();
    world.move_blob(&old_key, &new_key);
    let report = world.reconcile(false, false).unwrap();
    assert_eq!(report.hashed_files, 1);
    assert_eq!(report.removed_resources, 0);

    let moved = world
        .find_by_path(&DirectoryPath::from_path("new").unwrap(), "photo-renamed.bin")
        .unwrap();
    assert_eq!(moved.resource().id(), original.resource().id());
    assert_eq!(world.resources.len(), 1);
}

#[test]
fn two_missing_candidates_with_equal_content_create_a_new_resource() {
    let mut world = World::new();
    let first = StorageKey::new("a/one.txt").unwrap();
    let second = StorageKey::new("b/two.txt").unwrap();
    world.put(&first, b"same");
    world.put(&second, b"same");
    world.reconcile(false, false).unwrap();
    let ids: Vec<_> = world.resources.iter().map(|r| r.id()).collect();

    world.delete(&first);
    world.delete(&second);
    let copy = StorageKey::new("c/three.txt").unwrap();
    world.put(&copy, b"same");
    let report = world.reconcile(false, false).unwrap();
    assert_eq!(report.removed_resources, 2);
    let created = world
        .find_by_path(&DirectoryPath::from_path("c").unwrap(), "three.txt")
        .unwrap();
    assert!(!ids.contains(&created.resource().id()));
    assert_eq!(world.resources.len(), 1);
}

#[test]
fn checksum_failure_is_recorded_on_the_resource() {
    let mut world = World::new();
    let key = StorageKey::new("docs/readme.md").unwrap();
    world.put(&key, b"hello");

    let mut changed = world.inspect(&key).unwrap();
    changed.size = 99;
    let result = world.run_blob_sync(BlobSync::Scanned { blob: changed });
    assert!(matches!(
        result,
        Err(CoreError::Conflict(asset_core::error::Conflict::BlobChangedDuringChecksum))
    ));
    assert!(world
        .find_by_path(&DirectoryPath::from_path("docs").unwrap(), "readme.md")
        .is_none());

    world.fail_checksum = true;
    let result = world.run_blob_sync(BlobSync::Start { key: key.clone() });
    assert!(matches!(result, Err(CoreError::InvalidStorageKey)));
    let recorded = world
        .find_by_path(&DirectoryPath::from_path("docs").unwrap(), "readme.md")
        .unwrap();
    let content = recorded.resource().content().unwrap();
    assert_eq!(content.verification_status(), ContentVerificationStatus::Failed);
    assert_eq!(content.size(), 5);
    assert!(content.checksum().is_none());
}

#[test]
fn resources_with_unverified_content_only_trigger_metadata_recovery() {
    let mut world = World::new();
    assert!(needs_metadata_recovery(&world.all_active()));
    let key = StorageKey::new("a.txt").unwrap();
    world.put(&key, b"a");
    world.recover_metadata().unwrap();
    assert!(needs_metadata_recovery(&world.all_active()));
    world.reconcile_storage_keys(std::slice::from_ref(&key)).unwrap();
    assert!(!needs_metadata_recovery(&world.all_active()));
    let kind = world.resources[0].kind().as_str().to_string();
    assert_eq!(kind, ResourceKind::fallback().as_str());
}

#[test]
fn a_forced_scan_rehashes_every_blob_of_the_pass() {
    let mut world = World::new();
    for name in ["library/a.txt", "library/b.txt", "notes/c.txt"] {
        world.put(&StorageKey::new(name).unwrap(), name.as_bytes());
    }
    let settled = world.reconcile(false, false).unwrap();
    assert_eq!(settled.files, 3);
    let unchanged = world.reconcile(false, false).unwrap();
    assert_eq!(unchanged.unchanged_files, 3);

    let forced = world.reconcile(true, false).unwrap();
    assert_eq!(forced.files, 3);
    assert_eq!(forced.hashed_files, 3);
    assert_eq!(forced.unchanged_files, 0);
    assert!(forced.pending_verification_keys().is_empty());
}
