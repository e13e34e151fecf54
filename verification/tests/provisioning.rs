use asset_core::directory::domain::{
    Directory, DirectoryKind, DirectoryRelocation, DirectoryRevisionUpdate, LocatedDirectory,
};
use asset_core::directory::provisioning::{create_child_step, materialize_step, CreateChild, CreateChildRun, Materialize};
use asset_core::directory::workflow::{empty_deletion_step, relocation_step, EmptyDeletion, RelocationRun};
use asset_core::directory::workflow::{DirectoryAction, DirectoryEvent};
use asset_core::domain::ids::DirectoryId;
use asset_core::domain::path::DirectoryPath;
use asset_core::domain::resource::DirectoryLocation;
use asset_core::error::{Conflict, CoreError, Invariant};

/// How a workflow ended: with a located Directory, or with a result.
enum End {
    Located(Result<LocatedDirectory, CoreError>),
    Done(Result<bool, CoreError>),
}

/// The Directory store, its path index and the physical directories, held in memory.
struct Tree {
    store: Vec<Directory>,
    index: Vec<LocatedDirectory>,
    physical: Vec<String>,
    fail_inserts: bool,
    reject_batches: bool,
    completed_relocations: usize,
}

impl Tree {
    fn new() -> Tree {
        let root = Directory::rehydrate(
            DirectoryId::root(),
            None,
            "",
            DirectoryKind::try_new("core:directory").unwrap(),
            1,
        )
        .unwrap();
        let location = DirectoryLocation::new(root.id(), DirectoryPath::root());
        Tree {
            store: vec![root.clone()],
            index: vec![LocatedDirectory::new(root, location).unwrap()],
            physical: vec![String::new()],
            fail_inserts: false,
            reject_batches: false,
            completed_relocations: 0,
        }
    }

    fn located(&self, found: Option<&LocatedDirectory>) -> Option<LocatedDirectory> {
        found.map(|l| LocatedDirectory::new(l.directory().clone(), l.location().clone()).unwrap())
    }

    fn perform(&mut self, action: DirectoryAction) -> Result<DirectoryEvent, End> {
        Ok(match action {
            DirectoryAction::FindByPath(p) => {
                DirectoryEvent::DirectoryFound(self.located(self.index.iter().find(|l| l.path().path() == p.path())))
            }
            DirectoryAction::FindById(id) => {
                DirectoryEvent::DirectoryFound(self.located(self.index.iter().find(|l| l.id() == id)))
            }
            DirectoryAction::DirectoryExists(p) => {
                DirectoryEvent::Presence(self.physical.iter().any(|d| d == p.path()))
            }
            DirectoryAction::EnsureDirectory(p) => {
                if !self.physical.iter().any(|d| d == p.path()) {
                    self.physical.push(p.path().to_string());
                }
                DirectoryEvent::Completed
            }
            DirectoryAction::DeleteEmptyDirectory(p) => {
                self.physical.retain(|d| d != p.path());
                DirectoryEvent::Completed
            }
            DirectoryAction::InsertDirectory(d) => {
                if self.fail_inserts {
                    DirectoryEvent::Failed(CoreError::Conflict(Conflict::DirectoryCycle))
                } else {
                    self.store.push(d);
                    DirectoryEvent::Completed
                }
            }
            DirectoryAction::RefreshIndex(id) => {
                let directory = self.store.iter().find(|d| d.id() == id).unwrap().clone();
                let parent = self.index.iter().find(|l| Some(l.id()) == directory.parent_id()).unwrap();
                let path = parent.path().child(directory.name()).unwrap();
                let location = DirectoryLocation::new(id, path);
                self.index.push(LocatedDirectory::new(directory, location).unwrap());
                DirectoryEvent::Completed
            }
            DirectoryAction::RequireRegistered(_) | DirectoryAction::RequireAllowedUnder { .. } => {
                DirectoryEvent::Completed
            }
            DirectoryAction::DefaultChildKind(kind) => DirectoryEvent::DefaultChildKind(
                (kind.as_str() == "azvs.games:directory")
                    .then(|| DirectoryKind::try_new("azvs.games:directory:item").unwrap()),
            ),
            DirectoryAction::Contains { ancestor, candidate } => {
                let mut current = Some(candidate);
                let mut inside = false;
                while let Some(id) = current {
                    if id == ancestor {
                        inside = true;
                        break;
                    }
                    current = self.store.iter().find(|d| d.id() == id).and_then(|d| d.parent_id());
                }
                DirectoryEvent::Contains(inside)
            }
            DirectoryAction::LoadAll(ids) => DirectoryEvent::DirectoriesLoaded(
                ids.iter().map(|id| self.store.iter().find(|d| d.id() == *id).cloned()).collect(),
            ),
            DirectoryAction::MoveDirectory { from, to } => {
                let (from, to) = (from.path().to_string(), to.path().to_string());
                for d in self.physical.iter_mut() {
                    if *d == from || d.starts_with(&format!("{from}/")) {
                        *d = format!("{to}{}", &d[from.len()..]);
                    }
                }
                DirectoryEvent::Completed
            }
            DirectoryAction::UpdateBatch(updates) => {
                let current = updates.iter().all(|u| {
                    self.store.iter().any(|d| d.id() == u.directory().id() && d.revision() == u.expected_revision())
                });
                let applied = current && !self.reject_batches;
                if applied {
                    for u in updates {
                        self.store.retain(|d| d.id() != u.directory().id());
                        self.store.push(u.directory().clone());
                    }
                }
                DirectoryEvent::Applied(applied)
            }
            DirectoryAction::RebuildIndex => DirectoryEvent::Completed,
            DirectoryAction::CompleteRelocation(_) => {
                self.completed_relocations += 1;
                DirectoryEvent::Completed
            }
            DirectoryAction::IsEmpty(id) => {
                DirectoryEvent::Empty(!self.store.iter().any(|d| d.parent_id() == Some(id)))
            }
            DirectoryAction::DeleteIfEmpty { id, revision } => {
                let empty = !self.store.iter().any(|d| d.parent_id() == Some(id));
                let current = self.store.iter().any(|d| d.id() == id && d.revision() == revision);
                if empty && current {
                    self.store.retain(|d| d.id() != id);
                }
                DirectoryEvent::Applied(empty && current)
            }
            DirectoryAction::RemoveFromIndex(id) => {
                self.index.retain(|l| l.id() != id);
                DirectoryEvent::Completed
            }
            DirectoryAction::Return(l) => return Err(End::Located(Ok(l))),
            DirectoryAction::Finish(r) => return Err(End::Done(r)),
            other => panic!("unexpected action {other:?}"),
        })
    }

    fn materialize(&mut self, path: &str, importing: bool) -> Result<LocatedDirectory, CoreError> {
        let path = DirectoryPath::from_path(path).unwrap();
        let mut state = Materialize::Start;
        let mut event = DirectoryEvent::Started;
        loop {
            let (next, action) = materialize_step(&path, importing, state, event);
            state = next;
            match self.perform(action) {
                Ok(e) => event = e,
                Err(End::Located(end)) => return end,
                Err(End::Done(Err(e))) => return Err(e),
                Err(End::Done(Ok(_))) => panic!("materializing ended without a Directory"),
            }
        }
    }

    fn create_child(&mut self, run: CreateChildRun) -> Result<LocatedDirectory, CoreError> {
        let mut state = CreateChild::Start;
        let mut event = DirectoryEvent::Started;
        loop {
            let (next, action) = create_child_step(&run, state, event);
            state = next;
            match self.perform(action) {
                Ok(e) => event = e,
                Err(End::Located(end)) => return end,
                Err(End::Done(Err(e))) => return Err(e),
                Err(End::Done(Ok(_))) => panic!("creation ended without a Directory"),
            }
        }
    }

    fn relocate(&mut self, relocation: &DirectoryRelocation) -> Result<bool, CoreError> {
        let mut state = RelocationRun::Start;
        let mut event = DirectoryEvent::Started;
        loop {
            let (next, action) = relocation_step(relocation, false, state, event);
            state = next;
            match self.perform(action) {
                Ok(e) => event = e,
                Err(End::Done(r)) => return r,
                Err(End::Located(_)) => panic!("relocation ended with a Directory"),
            }
        }
    }

    fn delete_if_empty(&mut self, id: DirectoryId, revision: Option<u64>) -> Result<bool, CoreError> {
        let mut state = EmptyDeletion::Start;
        let mut event = DirectoryEvent::Started;
        loop {
            let (next, action) = empty_deletion_step(id, revision, state, event);
            state = next;
            match self.perform(action) {
                Ok(e) => event = e,
                Err(End::Done(r)) => return r,
                Err(End::Located(_)) => panic!("deletion ended with a Directory"),
            }
        }
    }
}

#[test]
fn provisioning_creates_each_missing_segment_below_the_previous_one() {
    let mut tree = Tree::new();
    let leaf = tree.materialize("library/photos/2024", false).unwrap();
    assert_eq!(leaf.path().path(), "library/photos/2024");
    assert_eq!(leaf.directory().name(), "2024");
    assert_eq!(leaf.directory().kind().as_str(), "core:directory");
    assert_eq!(leaf.directory().revision(), 1);
    for p in ["library", "library/photos", "library/photos/2024"] {
        assert!(tree.physical.iter().any(|d| d == p));
        assert!(tree.index.iter().any(|l| l.path().path() == p));
    }
    let photos = tree.index.iter().find(|l| l.path().path() == "library/photos").unwrap().id();
    assert_eq!(leaf.directory().parent_id(), Some(photos));

    let again = tree.materialize("library/photos/2024", false).unwrap();
    assert_eq!(again.id(), leaf.id());
    assert_eq!(tree.store.len(), 4);
}

#[test]
fn storage_import_records_only_directories_that_exist_physically() {
    let mut tree = Tree::new();
    tree.physical.push("scans".to_string());
    let scans = tree.materialize("scans", true).unwrap();
    assert_eq!(scans.path().path(), "scans");
    assert!(matches!(
        tree.materialize("scans/missing", true),
        Err(CoreError::Invariant(Invariant::StorageImportPathMissing))
    ));
    assert!(!tree.physical.iter().any(|d| d == "scans/missing"));
}

#[test]
fn a_failed_insert_removes_the_physical_directory_it_created() {
    let mut tree = Tree::new();
    tree.fail_inserts = true;
    assert!(matches!(
        tree.materialize("inbox", false),
        Err(CoreError::Conflict(Conflict::DirectoryCycle))
    ));
    assert!(!tree.physical.iter().any(|d| d == "inbox"));
}

#[test]
fn only_empty_directories_at_the_expected_revision_are_deleted() {
    let mut tree = Tree::new();
    let leaf = tree.materialize("library/photos", false).unwrap();
    let library = tree.index.iter().find(|l| l.path().path() == "library").unwrap().id();

    assert_eq!(tree.delete_if_empty(library, None).unwrap(), false);
    assert!(tree.physical.iter().any(|d| d == "library"));
    assert!(matches!(
        tree.delete_if_empty(leaf.id(), Some(2)),
        Err(CoreError::RevisionConflict { .. })
    ));
    assert_eq!(tree.delete_if_empty(DirectoryId::root(), None).unwrap(), false);

    assert_eq!(tree.delete_if_empty(leaf.id(), Some(1)).unwrap(), true);
    assert!(!tree.physical.iter().any(|d| d == "library/photos"));
    assert!(!tree.index.iter().any(|l| l.id() == leaf.id()));
    assert!(matches!(
        tree.delete_if_empty(leaf.id(), None),
        Err(CoreError::NotFound { .. })
    ));
    assert_eq!(tree.delete_if_empty(library, None).unwrap(), true);
}

fn run(parent_id: DirectoryId, name: &str, kind: &str) -> CreateChildRun {
    CreateChildRun {
        parent_id,
        name: name.to_string(),
        kind: DirectoryKind::try_new(kind).unwrap(),
        expected_parent_revision: None,
        required_ancestor: None,
    }
}

#[test]
fn children_are_created_once_below_an_existing_parent() {
    let mut tree = Tree::new();
    let inbox = tree.create_child(run(DirectoryId::root(), "inbox", "core:directory")).unwrap();
    assert_eq!(inbox.path().path(), "inbox");
    assert_eq!(inbox.directory().parent_id(), Some(DirectoryId::root()));
    assert!(tree.physical.iter().any(|d| d == "inbox"));
    assert!(matches!(
        tree.create_child(run(DirectoryId::root(), "inbox", "core:directory")),
        Err(CoreError::Conflict(Conflict::DirectoryNameTaken))
    ));
    assert!(matches!(
        tree.create_child(run(DirectoryId::new(), "lost", "core:directory")),
        Err(CoreError::NotFound { .. })
    ));
    assert!(tree.create_child(run(DirectoryId::root(), "a/b", "core:directory")).is_err());

    let mut stale = run(inbox.id(), "late", "core:directory");
    stale.expected_parent_revision = Some(2);
    assert!(matches!(
        tree.create_child(stale),
        Err(CoreError::Conflict(Conflict::DirectoryChangedWhileActionExecuted))
    ));

    let other = tree.create_child(run(DirectoryId::root(), "other", "core:directory")).unwrap();
    let mut scoped = run(inbox.id(), "outside", "core:directory");
    scoped.required_ancestor = Some(other.id());
    assert!(matches!(tree.create_child(scoped), Err(CoreError::Forbidden { .. })));
    let mut inside = run(inbox.id(), "inside", "core:directory");
    inside.required_ancestor = Some(inbox.id());
    assert_eq!(tree.create_child(inside).unwrap().path().path(), "inbox/inside");
}

#[test]
fn a_plain_child_takes_the_parent_kinds_default_child_kind() {
    let mut tree = Tree::new();
    let games = tree.create_child(run(DirectoryId::root(), "games", "azvs.games:directory")).unwrap();
    let plain = tree.create_child(run(games.id(), "tetris", "core:directory")).unwrap();
    assert_eq!(plain.directory().kind().as_str(), "azvs.games:directory:item");
    let explicit = tree.create_child(run(games.id(), "notes", "azvs:notes")).unwrap();
    assert_eq!(explicit.directory().kind().as_str(), "azvs:notes");
}

fn renaming(tree: &Tree, id: DirectoryId, to: &str, expected_revision: u64) -> DirectoryRelocation {
    let mut desired = tree.store.iter().find(|d| d.id() == id).unwrap().clone();
    desired.rename(to).unwrap();
    let source = tree.index.iter().find(|l| l.id() == id).unwrap().path().clone();
    DirectoryRelocation::new(
        id,
        source,
        DirectoryPath::from_path(to).unwrap(),
        vec![DirectoryRevisionUpdate::new(desired, expected_revision).unwrap()],
    )
    .unwrap()
}

#[test]
fn a_relocation_moves_the_subtree_and_records_the_new_revision() {
    let mut tree = Tree::new();
    let inbox = tree.materialize("inbox/today", false).unwrap();
    let inbox_id = tree.index.iter().find(|l| l.path().path() == "inbox").unwrap().id();
    let relocation = renaming(&tree, inbox_id, "mail", 1);
    assert_eq!(tree.relocate(&relocation).unwrap(), true);
    assert!(tree.physical.iter().any(|d| d == "mail/today"));
    assert!(!tree.physical.iter().any(|d| d.starts_with("inbox")));
    let stored = tree.store.iter().find(|d| d.id() == inbox_id).unwrap();
    assert_eq!(stored.name(), "mail");
    assert_eq!(stored.revision(), 2);
    assert_eq!(tree.completed_relocations, 1);
    assert!(tree.store.iter().any(|d| d.id() == inbox.id()));

    let stale = renaming(&tree, inbox_id, "post", 1);
    assert!(matches!(
        tree.relocate(&stale),
        Err(CoreError::Conflict(Conflict::DirectoryRelocationConflictsWithRevisions))
    ));
    assert!(tree.physical.iter().any(|d| d == "mail"));
}

#[test]
fn a_rejected_relocation_batch_moves_the_subtree_back() {
    let mut tree = Tree::new();
    tree.materialize("inbox", false).unwrap();
    let inbox_id = tree.index.iter().find(|l| l.path().path() == "inbox").unwrap().id();
    let relocation = renaming(&tree, inbox_id, "mail", 1);
    tree.reject_batches = true;
    assert!(matches!(
        tree.relocate(&relocation),
        Err(CoreError::Conflict(Conflict::DirectoryChangedDuringRelocation))
    ));
    assert!(tree.physical.iter().any(|d| d == "inbox"));
    assert!(!tree.physical.iter().any(|d| d == "mail"));
    assert_eq!(tree.store.iter().find(|d| d.id() == inbox_id).unwrap().revision(), 1);
}
