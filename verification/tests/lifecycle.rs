use asset_core::domain::checksum::calculate_checksum;
use asset_core::domain::ids::{DirectoryId, ResourceId};
use asset_core::domain::path::{DirectoryPath, StorageKey};
use asset_core::domain::resource::{DirectoryLocation, Resource, ResourceContent, ResourceKind};
use asset_core::error::{Conflict, CoreError, Subject};
use asset_core::resource::contract::UpdateResource;
use asset_core::resource::domain::ResourceDeletion;
use asset_core::resource::lifecycle::{
    begin_update, begin_update_of, plan_deletion_of, durable_deletion_step, plan_deletion, staged_deletion_step, update_step,
    DeletionPlan, DurableDeletion, PlannedUpdate, ResourceUpdate, StagedDeletion, UpdatePlan,
};
use asset_core::resource::query::{LocatedResource, ResourceRelocation};
use asset_core::resource::recovery::{
    deletion_recovery_step, relocation_recovery_step, DeletionRecovery, RecoveryEvent,
    RelocationRecovery, StorageAction,
};

/// Blob storage, the Resource store, the Directory index and the durable intents in memory.
struct Store {
    blobs: Vec<(String, Vec<u8>)>,
    resources: Vec<Resource>,
    directories: Vec<DirectoryLocation>,
    relocations: Vec<ResourceRelocation>,
    deletions: Vec<ResourceDeletion>,
    fail_next_cas: bool,
}

impl Store {
    fn new() -> Store {
        Store {
            blobs: Vec::new(),
            resources: Vec::new(),
            directories: vec![
                DirectoryLocation::new(DirectoryId::root(), DirectoryPath::root()),
                DirectoryLocation::new(DirectoryId(77), DirectoryPath::from_path("docs").unwrap()),
            ],
            relocations: Vec::new(),
            deletions: Vec::new(),
            fail_next_cas: false,
        }
    }

    fn get(&self, key: &str) -> Option<Vec<u8>> {
        self.blobs.iter().find(|(k, _)| k == key).map(|(_, d)| d.clone())
    }

    fn put(&mut self, key: &str, data: &[u8]) {
        self.blobs.retain(|(k, _)| k != key);
        self.blobs.push((key.to_string(), data.to_vec()));
    }

    fn location(&self, id: DirectoryId) -> DirectoryLocation {
        self.directories.iter().find(|d| d.id() == id).cloned().unwrap()
    }

    fn locate(&self, id: ResourceId) -> Option<LocatedResource> {
        self.resources
            .iter()
            .find(|r| r.id() == id)
            .map(|r| LocatedResource::new(r.clone(), self.location(r.directory_id())).unwrap())
    }

    fn add(&mut self, name: &str, data: &[u8]) -> ResourceId {
        let mut resource = Resource::create(name, DirectoryId::root(), ResourceKind::fallback()).unwrap();
        resource
            .attach_content(ResourceContent::verified(
                data.len() as u64,
                calculate_checksum(data).unwrap(),
                None,
                None,
            ))
            .unwrap();
        self.put(name, data);
        let id = resource.id();
        self.resources.push(resource);
        id
    }

    fn perform(&mut self, action: StorageAction) -> Result<RecoveryEvent, StorageAction> {
        let done = RecoveryEvent::Completed;
        Ok(match action {
            StorageAction::LoadResource(id) => {
                RecoveryEvent::ResourceLoaded(self.resources.iter().find(|r| r.id() == id).cloned())
            }
            StorageAction::FindResource(id) => RecoveryEvent::ResourceFound(self.locate(id)),
            StorageAction::BlobExists(key) => RecoveryEvent::BlobPresence(self.get(key.as_str()).is_some()),
            StorageAction::MoveIfAbsent { from, to } => {
                if self.get(to.as_str()).is_some() {
                    RecoveryEvent::Failed(CoreError::Conflict(Conflict::PhysicalDestinationExists))
                } else if let Some(data) = self.get(from.as_str()) {
                    self.blobs.retain(|(k, _)| k != from.as_str());
                    self.put(to.as_str(), &data);
                    done
                } else {
                    RecoveryEvent::Failed(CoreError::Conflict(Conflict::PhysicalSourceMissing))
                }
            }
            StorageAction::DeleteBlob(key) => {
                self.blobs.retain(|(k, _)| k != key.as_str());
                done
            }
            StorageAction::DeleteIfRevision { id, expected_revision } => {
                let before = self.resources.len();
                self.resources.retain(|r| !(r.id() == id && r.revision() == expected_revision));
                RecoveryEvent::CasApplied(before != self.resources.len())
            }
            StorageAction::UpdateIfRevision { desired, expected_revision } => {
                if self.fail_next_cas {
                    self.fail_next_cas = false;
                    return Ok(RecoveryEvent::CasApplied(false));
                }
                match self.resources.iter_mut().find(|r| r.id() == desired.id()) {
                    Some(stored) if stored.revision() == expected_revision => {
                        *stored = desired;
                        RecoveryEvent::CasApplied(true)
                    }
                    _ => RecoveryEvent::CasApplied(false),
                }
            }
            StorageAction::LocateDirectory(id) => RecoveryEvent::DirectoryLocated(self.location(id)),
            StorageAction::FindByDirectoryAndName { directory_id, name } => RecoveryEvent::ResourceFound(
                self.resources
                    .iter()
                    .find(|r| r.directory_id() == directory_id && r.name() == name)
                    .map(|r| LocatedResource::new(r.clone(), self.location(directory_id)).unwrap()),
            ),
            StorageAction::SaveRelocation(relocation) => {
                self.relocations.push(relocation);
                done
            }
            StorageAction::RunRelocation(relocation) => match self.recover_relocation(&relocation) {
                Ok(()) => done,
                Err(e) => RecoveryEvent::Failed(e),
            },
            StorageAction::CompleteRelocation(id) => {
                self.relocations.retain(|r| r.resource_id() != id);
                done
            }
            StorageAction::SaveDeletionIntent(deletion) => {
                self.deletions.push(deletion);
                done
            }
            StorageAction::RunDeletion(deletion) => match self.recover_deletion(&deletion) {
                Ok(()) => done,
                Err(e) => RecoveryEvent::Failed(e),
            },
            StorageAction::RemoveDeletionIntent(id) => {
                self.deletions.retain(|d| d.resource_id() != id);
                done
            }
            finished => return Err(finished),
        })
    }

    fn drive<S>(&mut self, start: (S, StorageAction), step: impl Fn(S, RecoveryEvent) -> (S, StorageAction)) -> Result<(), CoreError> {
        let (mut state, mut action) = start;
        loop {
            match self.perform(action) {
                Ok(event) => (state, action) = step(state, event),
                Err(StorageAction::Finish(result)) => return result,
                Err(other) => panic!("unexpected end {other:?}"),
            }
        }
    }

    fn recover_relocation(&mut self, relocation: &ResourceRelocation) -> Result<(), CoreError> {
        let start = relocation_recovery_step(relocation, RelocationRecovery::Start, RecoveryEvent::Started);
        self.drive(start, |s, e| relocation_recovery_step(relocation, s, e))
    }

    fn recover_deletion(&mut self, deletion: &ResourceDeletion) -> Result<(), CoreError> {
        let start = deletion_recovery_step(deletion, DeletionRecovery::Start, RecoveryEvent::Started);
        self.drive(start, |s, e| deletion_recovery_step(deletion, s, e))
    }

    fn update(&mut self, id: ResourceId, command: UpdateResource) -> Result<Resource, CoreError> {
        let located = self.locate(id).unwrap();
        match begin_update(located, command)? {
            UpdatePlan::Unchanged(resource) => Ok(resource),
            UpdatePlan::Write(plan) => {
                let start = update_step(&plan, ResourceUpdate::Start, RecoveryEvent::Started);
                let plan_ref: &PlannedUpdate = &plan;
                self.drive(start, |s, e| update_step(plan_ref, s, e))?;
                Ok(plan.desired().clone())
            }
        }
    }

    fn delete_durably(&mut self, id: ResourceId, expected_revision: u64) -> Result<(), CoreError> {
        let plan = plan_deletion(&self.locate(id).unwrap(), expected_revision)?;
        let start = durable_deletion_step(&plan, DurableDeletion::Start, RecoveryEvent::Started);
        self.drive(start, |s, e| durable_deletion_step(&plan, s, e))
    }

    fn delete_staged(&mut self, id: ResourceId, expected_revision: u64) -> Result<(), CoreError> {
        let plan = plan_deletion(&self.locate(id).unwrap(), expected_revision)?;
        let start = staged_deletion_step(&plan, StagedDeletion::Start, RecoveryEvent::Started);
        self.drive(start, |s, e| staged_deletion_step(&plan, s, e))
    }
}

#[test]
fn renaming_moves_the_blob_and_advances_the_revision() {
    let mut store = Store::new();
    let id = store.add("a.md", b"alpha");
    let revision = store.locate(id).unwrap().resource().revision();

    let updated = store.update(id, UpdateResource::new(revision).with_name("b.md")).unwrap();
    assert_eq!(updated.name(), "b.md");
    assert_eq!(updated.revision(), revision + 1);
    assert_eq!(store.get("b.md"), Some(b"alpha".to_vec()));
    assert!(store.get("a.md").is_none());
    assert_eq!(store.locate(id).unwrap().resource().name(), "b.md");
    assert!(store.relocations.is_empty());

    let moved = store
        .update(id, UpdateResource::new(revision + 1).with_directory_id(DirectoryId(77)))
        .unwrap();
    assert_eq!(moved.directory_id(), DirectoryId(77));
    assert_eq!(store.get("docs/b.md"), Some(b"alpha".to_vec()));
    assert_eq!(store.locate(id).unwrap().storage_key().unwrap(), StorageKey::new("docs/b.md").unwrap());
}

#[test]
fn updates_refuse_stale_revisions_and_occupied_names() {
    let mut store = Store::new();
    let id = store.add("a.md", b"alpha");
    store.add("b.md", b"beta");
    let revision = store.locate(id).unwrap().resource().revision();

    assert!(matches!(
        store.update(id, UpdateResource::new(revision + 5).with_name("c.md")),
        Err(CoreError::RevisionConflict { subject: Subject::Resource, .. })
    ));
    assert!(matches!(
        store.update(id, UpdateResource::new(revision).with_name("b.md")),
        Err(CoreError::Conflict(Conflict::ResourcePathOccupied))
    ));
    let unchanged = store.update(id, UpdateResource::new(revision).with_name("a.md")).unwrap();
    assert_eq!(unchanged.revision(), revision);
    assert_eq!(store.get("a.md"), Some(b"alpha".to_vec()));
    assert_eq!(store.get("b.md"), Some(b"beta".to_vec()));
}

#[test]
fn durable_deletion_removes_the_record_and_the_blob() {
    let mut store = Store::new();
    let id = store.add("gone.bin", b"bytes");
    let revision = store.locate(id).unwrap().resource().revision();

    assert!(matches!(
        store.delete_durably(id, revision + 1),
        Err(CoreError::RevisionConflict { .. })
    ));
    store.delete_durably(id, revision).unwrap();
    assert!(store.locate(id).is_none());
    assert!(store.blobs.is_empty());
    assert!(store.deletions.is_empty());
}

#[test]
fn staged_deletion_restores_the_blob_when_the_record_changed() {
    let mut store = Store::new();
    let id = store.add("kept.bin", b"bytes");
    let revision = store.locate(id).unwrap().resource().revision();
    let plan = plan_deletion(&store.locate(id).unwrap(), revision).unwrap();
    assert!(matches!(plan, DeletionPlan::Stage(_)));

    // The Resource changes between planning and deleting.
    let mut changed = store.resources[0].clone();
    changed.rename("renamed.bin").unwrap();
    store.resources[0] = changed;
    let start = staged_deletion_step(&plan, StagedDeletion::Start, RecoveryEvent::Started);
    let result = store.drive(start, |s, e| staged_deletion_step(&plan, s, e));
    assert!(result.is_err());
    assert_eq!(store.get("kept.bin"), Some(b"bytes".to_vec()));
    assert!(store.locate(id).is_some());

    let id2 = store.add("other.bin", b"x");
    let revision2 = store.locate(id2).unwrap().resource().revision();
    store.delete_staged(id2, revision2).unwrap();
    assert!(store.get("other.bin").is_none());
    assert!(store.locate(id2).is_none());
}

#[test]
fn an_interrupted_deletion_is_completed_by_recovery() {
    let mut store = Store::new();
    let id = store.add("half.bin", b"bytes");
    let revision = store.locate(id).unwrap().resource().revision();
    let deletion = match plan_deletion(&store.locate(id).unwrap(), revision).unwrap() {
        DeletionPlan::Stage(d) => d,
        other => panic!("expected a staged deletion, got {other:?}"),
    };
    store.deletions.push(deletion.clone());
    let staged = deletion.deletion_key().clone();
    store.perform(StorageAction::MoveIfAbsent { from: deletion.source_key().clone(), to: staged.clone() }).unwrap();

    store.recover_deletion(&deletion).unwrap();
    assert!(store.locate(id).is_none());
    assert!(store.get(staged.as_str()).is_none());
    assert!(store.get("half.bin").is_none());
    assert!(store.deletions.is_empty());
}

#[test]
fn updating_or_deleting_a_missing_resource_answers_nothing() {
    assert!(matches!(begin_update_of(None, UpdateResource::new(1).with_name("x.md")), Ok(None)));
    assert!(matches!(plan_deletion_of(None, 1), Ok(None)));

    let mut store = Store::new();
    let id = store.add("a.md", b"alpha");
    let revision = store.locate(id).unwrap().resource().revision();
    assert!(matches!(
        begin_update_of(store.locate(id), UpdateResource::new(revision + 1).with_name("b.md")),
        Err(CoreError::RevisionConflict { subject: Subject::Resource, .. })
    ));
    assert!(matches!(
        begin_update_of(store.locate(id), UpdateResource::new(revision).with_name("b.md")),
        Ok(Some(UpdatePlan::Write(_)))
    ));
    assert!(matches!(plan_deletion_of(store.locate(id).as_ref(), revision), Ok(Some(DeletionPlan::Stage(_)))));
    assert!(matches!(
        plan_deletion_of(store.locate(id).as_ref(), revision + 1),
        Err(CoreError::RevisionConflict { .. })
    ));
}

#[test]
fn a_staged_deletion_that_succeeds_leaves_neither_the_record_nor_a_blob() {
    let mut store = Store::new();
    let id = store.add("gone.bin", b"bytes");
    let revision = store.locate(id).unwrap().resource().revision();

    store.delete_staged(id, revision).unwrap();
    assert!(store.locate(id).is_none());
    assert!(store.blobs.is_empty());
}
