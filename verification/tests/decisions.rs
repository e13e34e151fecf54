use asset_core::directory::workflow::{
    directory_update_step, index_maintenance_step, DirectoryAction, DirectoryEvent, DirectoryUpdate,
    DirectoryUpdateRun, IndexMaintenance,
};
use asset_core::user::{normalize_username, validate_password, workspace_path, UserRole};
use asset_core::action::definition::{
    ActionOutputContract, DirectoryActionDefinition, ResourceActionContentDelivery,
    ResourceActionDefinition, ResourceActionRequirements,
};
use asset_core::action::orchestration::{
    action_content_load, applicable_resource_actions, find_directory_action, find_resource_action,
    offered_directory_actions,
};
use asset_core::action::policy::ResourceActionPolicy;
use asset_core::authorization::{
    access_step, AccessAction, AccessCheck, AccessContext, AccessEvent, AccessTarget,
    DirectoryPermission, WorkspaceScope,
};
use asset_core::domain::checksum::{hex_sha256, Checksum, ChecksumKind, ChecksumState};
use asset_core::domain::ids::{DirectoryId, UserId};
use asset_core::domain::path::{DirectoryPath, StorageKey};
use asset_core::domain::resource::{DirectoryLocation, ResourceContent, ResourceKind};
use asset_core::error::{Conflict, CoreError, LimitSubject, Subject};
use asset_core::resource::reconciliation::{
    classify_scanned_blob, reconcile_key_order, storage_lock_order, BlobDisposition, ScannedBlob,
};
use asset_core::resource::storage_sync::StoredBlobChecksum;
use asset_core::resource::upload_flow::{accept_content_kind, choose_content_kind};
use asset_core::resource::content::content_stream_plan;

fn run_access(
    context: &AccessContext,
    target: Option<AccessTarget>,
    workspace: Option<DirectoryLocation>,
    contains: impl Fn(DirectoryId, DirectoryId) -> bool,
) -> AccessAction {
    let (mut state, mut action) = access_step(context, &target, AccessCheck::Start, AccessEvent::Started);
    loop {
        let event = match action {
            AccessAction::LocateRoot => {
                AccessEvent::RootLocated(DirectoryLocation::new(DirectoryId::root(), DirectoryPath::root()))
            }
            AccessAction::FindWorkspace(_) => {
                AccessEvent::WorkspaceFound(workspace.as_ref().map(|l| l.id()))
            }
            AccessAction::LocateDirectory(_) => AccessEvent::DirectoryLocated(workspace.clone().unwrap()),
            AccessAction::CheckContains { ancestor, directory } => {
                AccessEvent::Contained(contains(ancestor, directory))
            }
            finished => return finished,
        };
        let (next_state, next_action) = access_step(context, &target, state, event);
        state = next_state;
        action = next_action;
    }
}

fn scope_of(action: AccessAction) -> WorkspaceScope {
    match action {
        AccessAction::ReturnScope(scope) => scope,
        other => panic!("expected a scope, got {other:?}"),
    }
}

#[test]
fn member_workspace_scope_resolves_and_projects_relative_paths() {
    let alice = DirectoryLocation::new(
        DirectoryId::new(),
        DirectoryPath::from_path("users/alice").unwrap(),
    );
    let actor = AccessContext::new(UserId(7), false);
    let scope = scope_of(run_access(&actor, None, Some(alice), |_, _| false));

    assert_eq!(scope.resolve(&DirectoryPath::root()).unwrap().path(), "users/alice");
    assert_eq!(
        scope
            .resolve(&DirectoryPath::from_path("images/raw").unwrap())
            .unwrap()
            .path(),
        "users/alice/images/raw"
    );
    assert_eq!(
        scope
            .project(&DirectoryPath::from_path("users/alice").unwrap())
            .unwrap()
            .path(),
        ""
    );
    assert_eq!(
        scope
            .project(&DirectoryPath::from_path("users/alice/images/raw").unwrap())
            .unwrap()
            .path(),
        "images/raw"
    );
    assert!(scope
        .project(&DirectoryPath::from_path("users/bob").unwrap())
        .is_err());
}

#[test]
fn administrator_workspace_scope_is_identity() {
    let scope = scope_of(run_access(&AccessContext::new(UserId(1), true), None, None, |_, _| false));
    let directory = DirectoryPath::from_path("images/raw").unwrap();

    assert_eq!(scope.resolve(&directory).unwrap(), directory);
    assert_eq!(scope.project(&directory).unwrap(), directory);
}

#[test]
fn member_operations_are_allowed_only_inside_workspace_subtree() {
    let alice_id = DirectoryId::new();
    let inside_id = DirectoryId::new();
    let alice = DirectoryLocation::new(alice_id, DirectoryPath::from_path("users/alice").unwrap());
    let actor = AccessContext::new(UserId(7), false);
    let contains = move |ancestor: DirectoryId, directory: DirectoryId| {
        ancestor == alice_id && (directory == alice_id || directory == inside_id)
    };
    let inside = AccessTarget {
        directory: DirectoryLocation::new(inside_id, DirectoryPath::from_path("users/alice/docs").unwrap()),
        permission: DirectoryPermission::Write,
    };
    assert!(matches!(
        run_access(&actor, Some(inside), Some(alice.clone()), contains),
        AccessAction::Finish(Ok(()))
    ));
    let outside = AccessTarget {
        directory: DirectoryLocation::new(DirectoryId::new(), DirectoryPath::from_path("users/bob").unwrap()),
        permission: DirectoryPermission::Write,
    };
    match run_access(&actor, Some(outside), Some(alice), contains) {
        AccessAction::Finish(Err(CoreError::Forbidden { action, path })) => {
            assert_eq!(action, "write");
            assert_eq!(path, "users/bob");
        }
        other => panic!("expected a refusal, got {other:?}"),
    }
}

#[test]
fn administrator_access_does_not_depend_on_a_workspace() {
    let target = AccessTarget {
        directory: DirectoryLocation::new(DirectoryId::new(), DirectoryPath::from_path("a/b").unwrap()),
        permission: DirectoryPermission::Full,
    };
    let result = run_access(&AccessContext::new(UserId(1), true), Some(target), None, |ancestor, _| {
        ancestor == DirectoryId::root()
    });
    assert!(matches!(result, AccessAction::Finish(Ok(()))));
}

#[test]
fn unknown_member_is_not_found() {
    let result = run_access(&AccessContext::new(UserId(42), false), None, None, |_, _| true);
    assert!(matches!(
        result,
        AccessAction::Finish(Err(CoreError::NotFound { subject: Subject::User, id: 42 }))
    ));
}

fn action_with_effects(id: &str, effects: &[&str]) -> DirectoryActionDefinition {
    DirectoryActionDefinition::new_static(id, id).with_output(ActionOutputContract {
        views: Vec::new(),
        effects: effects.iter().map(|e| e.to_string()).collect(),
    })
}

#[test]
fn root_directory_delete_is_neither_described_nor_resolvable() {
    let actions = || {
        vec![
            action_with_effects("core.directory.inspect", &[]),
            action_with_effects("core.directory.delete", &["delete"]),
        ]
    };
    let offered = offered_directory_actions(actions(), true);
    assert!(offered.iter().all(|a| a.id() != "core.directory.delete"));
    assert!(matches!(
        find_directory_action(offered, "core.directory.delete"),
        Err(CoreError::Unsupported { subject: Subject::DirectoryAction })
    ));

    let offered = offered_directory_actions(actions(), false);
    assert_eq!(offered.len(), 2);
    assert_eq!(
        find_directory_action(offered, "core.directory.delete").unwrap().id(),
        "core.directory.delete"
    );
}

fn content_of(size: u64) -> ResourceContent {
    ResourceContent::verified(size, Checksum::sha256(&"0".repeat(64)).unwrap(), Some("text/markdown".to_string()), None)
}

fn needs_content(id: &str) -> ResourceActionDefinition {
    ResourceActionDefinition::new_static(id, id).with_requirements(ResourceActionRequirements {
        content: true,
        content_delivery: ResourceActionContentDelivery::Auto,
    })
}

#[test]
fn resource_without_content_describes_only_actions_without_content_requirements() {
    let candidates = vec![
        ResourceActionDefinition::new_static("resource.inspect", "Inspect"),
        needs_content("example.content.read"),
        ResourceActionDefinition::new_static("core.resource.thumbnail", "Thumbnail"),
    ];
    let matched = vec![true, true, true];
    let offered = applicable_resource_actions(candidates, &matched, None, 1024);
    let ids: Vec<&str> = offered.iter().map(|a| a.id()).collect();
    assert_eq!(ids, vec!["resource.inspect", "core.resource.thumbnail"]);
}

#[test]
fn text_edit_capability_is_hidden_above_the_edit_policy() {
    let max_text_bytes = 1024;
    let editor = || {
        needs_content("core.text.edit").with_static_provides(Some("text_edit"))
    };
    let large = content_of(max_text_bytes + 1);
    let offered = applicable_resource_actions(vec![editor()], &vec![true], Some(&large), max_text_bytes);
    assert!(offered
        .iter()
        .all(|action| action.provides() != Some("text_edit")));

    let small = content_of(max_text_bytes);
    let offered = applicable_resource_actions(vec![editor()], &vec![true], Some(&small), max_text_bytes);
    assert_eq!(offered.len(), 1);
}

#[test]
fn unmatched_actions_are_not_offered_and_unknown_actions_are_unsupported() {
    let candidates = vec![
        ResourceActionDefinition::new_static("a", "A"),
        ResourceActionDefinition::new_static("b", "B"),
    ];
    let offered = applicable_resource_actions(candidates, &vec![false, true], None, 0);
    assert_eq!(offered.len(), 1);
    assert_eq!(find_resource_action(offered, "b").unwrap().id(), "b");
    let offered = vec![ResourceActionDefinition::new_static("a", "A")];
    assert!(matches!(
        find_resource_action(offered, "zzz"),
        Err(CoreError::Unsupported { subject: Subject::ResourceAction })
    ));
}

#[test]
fn inline_action_content_is_loaded_within_the_content_limit_only() {
    let policy = ResourceActionPolicy::new(100, 10).unwrap();
    let inline = needs_content("x").with_requirements(ResourceActionRequirements {
        content: true,
        content_delivery: ResourceActionContentDelivery::Inline,
    });
    assert_eq!(action_content_load(&inline, None, &policy).unwrap(), false);
    assert_eq!(action_content_load(&inline, Some(&content_of(100)), &policy).unwrap(), true);
    assert!(matches!(
        action_content_load(&inline, Some(&content_of(101)), &policy),
        Err(CoreError::LimitExceeded { subject: LimitSubject::PluginActionContent, limit: 100, actual: 101 })
    ));
    let auto = needs_content("y");
    assert_eq!(action_content_load(&auto, Some(&content_of(11)), &policy).unwrap(), false);
    assert_eq!(action_content_load(&auto, Some(&content_of(10)), &policy).unwrap(), true);
}

#[test]
fn content_kind_defaults_and_must_accept_content() {
    let requested = ResourceKind::try_new("core:text").unwrap();
    let detected = ResourceKind::try_new("core:image").unwrap();
    assert_eq!(choose_content_kind(Some(requested), Some(detected)).as_str(), "core:text");
    let detected = ResourceKind::try_new("core:image").unwrap();
    assert_eq!(choose_content_kind(None, Some(detected)).as_str(), "core:image");
    assert_eq!(choose_content_kind(None, None).as_str(), "core:file");
    let kind = || ResourceKind::try_new("core:folder").unwrap();
    assert!(matches!(
        accept_content_kind(kind(), false, true),
        Err(CoreError::Unsupported { subject: Subject::ResourceKind })
    ));
    assert!(matches!(
        accept_content_kind(kind(), true, false),
        Err(CoreError::Unsupported { subject: Subject::ContentUploadKind })
    ));
    assert_eq!(accept_content_kind(kind(), true, true).unwrap().as_str(), "core:folder");
}

fn blob(key: &str, size: u64, modified_at: i64) -> ScannedBlob {
    ScannedBlob { key: StorageKey::new(key).unwrap(), size, mime_type: None, modified_at }
}

#[test]
fn scanned_blobs_are_rehashed_unless_their_recorded_content_still_matches() {
    let verified = ResourceContent::verified(5, Checksum::sha256(&hex_sha256(b"hello")).unwrap(), None, Some(9));
    let pending = ResourceContent::pending(5, None, Some(9));
    let scanned = blob("a.txt", 5, 9);
    assert_eq!(classify_scanned_blob(Some(&verified), &scanned, false, false), BlobDisposition::Unchanged);
    assert_eq!(classify_scanned_blob(Some(&verified), &scanned, true, true), BlobDisposition::Rehash);
    assert_eq!(classify_scanned_blob(Some(&pending), &scanned, false, true), BlobDisposition::DeferVerification);
    assert_eq!(classify_scanned_blob(Some(&pending), &scanned, false, false), BlobDisposition::Rehash);
    assert_eq!(classify_scanned_blob(Some(&verified), &blob("a.txt", 5, 10), false, false), BlobDisposition::Rehash);
    assert_eq!(classify_scanned_blob(Some(&verified), &blob("a.txt", 6, 9), false, false), BlobDisposition::Rehash);
    assert_eq!(classify_scanned_blob(None, &scanned, false, true), BlobDisposition::Rehash);
}

fn keys(texts: &[&str]) -> Vec<StorageKey> {
    texts.iter().map(|t| StorageKey::new(t).unwrap()).collect()
}

#[test]
fn reported_keys_reconcile_existing_before_missing_each_sorted_once() {
    let reported = keys(&["b/to.txt", "a/from.txt", "b/to.txt", "a/new.txt", "a/from.txt"]);
    let present = vec![true, false, true, true, false];
    let ordered = reconcile_key_order(&reported, &present);
    let texts: Vec<&str> = ordered.iter().map(|k| k.as_str()).collect();
    assert_eq!(texts, vec!["a/new.txt", "b/to.txt", "a/from.txt"]);
}

#[test]
fn serializes_only_the_same_storage_key() {
    let first = storage_lock_order(&keys(&["assets/second.bin", "assets/first.bin", "assets/second.bin"]));
    let second = storage_lock_order(&keys(&["assets/first.bin", "assets/second.bin"]));
    let texts = |v: &Vec<StorageKey>| v.iter().map(|k| k.as_str().to_string()).collect::<Vec<_>>();
    assert_eq!(texts(&first), vec!["assets/first.bin", "assets/second.bin"]);
    assert_eq!(texts(&first), texts(&second));
}

#[test]
fn stored_blob_checksum_matches_the_one_shot_digest_and_checks_the_size() {
    let mut checksum = StoredBlobChecksum::begin(true).unwrap();
    checksum.absorb(b"hel").unwrap();
    checksum.absorb(b"lo").unwrap();
    assert_eq!(checksum.finish(5).unwrap().value(), hex_sha256(b"hello"));
    assert!(matches!(
        checksum.finish(4),
        Err(CoreError::Conflict(Conflict::BlobChangedDuringChecksum))
    ));
    assert!(matches!(
        StoredBlobChecksum::begin(false),
        Err(CoreError::Conflict(Conflict::BlobMissingForChecksum))
    ));
    assert_eq!(
        hex_sha256(b"hello"),
        "2cf24dba5fb0a30e26e83b2ac5b9e29e1b161e5c1fa7425e73043362938b9824"
    );
    let mut state = ChecksumState::new(ChecksumKind::Sha256);
    state.update(b"");
    assert_eq!(
        state.finish().unwrap().value(),
        "e3b0c44298fc1c149afbf4c8996fb92427ae41e4649b934ca495991b7852b855"
    );
}

fn child(parent: DirectoryId, name: &str, kind: &str) -> asset_core::directory::domain::LocatedDirectory {
    let directory = asset_core::directory::domain::Directory::new_with_kind(
        parent,
        name,
        asset_core::directory::domain::DirectoryKind::try_new(kind).unwrap(),
    )
    .unwrap();
    let location = DirectoryLocation::new(
        directory.id(),
        DirectoryPath::from_path(&format!("library/{name}")).unwrap(),
    );
    asset_core::directory::domain::LocatedDirectory::new(directory, location).unwrap()
}

#[test]
fn changing_a_directory_to_games_reclassifies_only_generic_direct_children() {
    let library = DirectoryId::new();
    let children = vec![
        child(library, "generic-game", "core:directory"),
        child(library, "preserved", "azvs:unrelated"),
    ];
    let games_item = Some(asset_core::directory::domain::DirectoryKind::try_new("azvs.games:directory:item").unwrap());
    let updates = asset_core::directory::workflow::child_kind_updates(&children, &games_item).unwrap();
    assert_eq!(updates.len(), 1);
    assert_eq!(updates[0].directory().name(), "generic-game");
    assert_eq!(updates[0].directory().kind().as_str(), "azvs.games:directory:item");
    assert_eq!(updates[0].directory().revision(), 2);
    assert_eq!(updates[0].expected_revision(), 1);

    let none = asset_core::directory::workflow::child_kind_updates(&children, &None).unwrap();
    assert!(none.is_empty());
}

#[test]
fn resource_without_content_rejects_direct_content_action_execution() {
    let candidates = vec![
        ResourceActionDefinition::new_static("resource.inspect", "Inspect"),
        needs_content("test.content.extract"),
    ];
    let offered = applicable_resource_actions(candidates, &vec![true, true], None, 1024);
    assert!(matches!(
        find_resource_action(offered, "test.content.extract"),
        Err(CoreError::Unsupported { subject: Subject::ResourceAction })
    ));
}

#[test]
fn get_resource_content_reads_existing_blob() {
    let mut resource = asset_core::domain::resource::Resource::create(
        "image.png",
        DirectoryId::root(),
        ResourceKind::fallback(),
    )
    .unwrap();
    let location = DirectoryLocation::new(DirectoryId::root(), DirectoryPath::root());
    let located = asset_core::resource::query::LocatedResource::new(resource.clone(), location.clone()).unwrap();
    assert!(content_stream_plan(&located).is_none());

    resource
        .attach_content(ResourceContent::verified(11, Checksum::sha256(&hex_sha256(b"image bytes")).unwrap(), None, None))
        .unwrap();
    let located = asset_core::resource::query::LocatedResource::new(resource, location).unwrap();
    let (key, media, length) = content_stream_plan(&located).unwrap();
    assert_eq!(key.as_str(), "image.png");
    assert_eq!(media, "application/octet-stream");
    assert_eq!(length, 11);
}

#[test]
fn user_rules_validate_passwords_trim_names_and_place_workspaces() {
    assert!(matches!(validate_password("abc"), Err(CoreError::WeakPassword)));
    assert!(validate_password("abcd").is_ok());
    assert!(validate_password("éé").is_ok());
    assert_eq!(normalize_username("  alice \u{3000}\t"), "alice");
    assert_eq!(normalize_username(" \u{2009} "), "");
    assert_eq!(normalize_username("bob smith"), "bob smith");
    assert_eq!(workspace_path("alice", UserRole::Member, None).unwrap().path(), "users/alice");
    assert_eq!(workspace_path("root", UserRole::Administrator, None).unwrap().path(), "");
    let requested = DirectoryPath::from_path("teams/a").unwrap();
    assert_eq!(workspace_path("alice", UserRole::Member, Some(requested)).unwrap().path(), "teams/a");
    assert!(matches!(
        workspace_path("", UserRole::Member, None),
        Err(CoreError::InvalidDirectoryPath)
    ));
}

struct Tree {
    directories: Vec<asset_core::directory::domain::LocatedDirectory>,
    writes: usize,
}

impl Tree {
    fn add(&mut self, parent: DirectoryId, name: &str, path: &str) -> DirectoryId {
        let directory = asset_core::directory::domain::Directory::new_with_kind(
            parent,
            name,
            asset_core::directory::domain::DirectoryKind::default(),
        )
        .unwrap();
        let id = directory.id();
        let location = DirectoryLocation::new(id, DirectoryPath::from_path(path).unwrap());
        self.directories
            .push(asset_core::directory::domain::LocatedDirectory::new(directory, location).unwrap());
        id
    }

    fn find(&self, id: DirectoryId) -> Option<asset_core::directory::domain::LocatedDirectory> {
        self.directories.iter().find(|d| d.id() == id).cloned()
    }

    fn contains(&self, ancestor: DirectoryId, candidate: DirectoryId) -> bool {
        let (Some(a), Some(c)) = (self.find(ancestor), self.find(candidate)) else {
            return false;
        };
        let (a, c) = (a.path().path().to_string(), c.path().path().to_string());
        a == c || c.starts_with(&format!("{a}/"))
    }

    fn update(&mut self, run: &DirectoryUpdateRun) -> DirectoryAction {
        let (mut state, mut action) = directory_update_step(run, DirectoryUpdate::Start, DirectoryEvent::Started);
        loop {
            let event = match &action {
                DirectoryAction::FindById(id) => DirectoryEvent::DirectoryFound(self.find(*id)),
                DirectoryAction::FindByPath(path) => DirectoryEvent::DirectoryFound(
                    self.directories.iter().find(|d| d.path() == path).cloned(),
                ),
                DirectoryAction::Contains { ancestor, candidate } => {
                    DirectoryEvent::Contains(self.contains(*ancestor, *candidate))
                }
                DirectoryAction::RequireRegistered(_)
                | DirectoryAction::RequireAllowedUnder { .. }
                | DirectoryAction::RequireChildKinds { .. } => DirectoryEvent::Completed,
                DirectoryAction::DefaultChildKind(_) => DirectoryEvent::DefaultChildKind(None),
                DirectoryAction::ListChildren(id) => DirectoryEvent::ChildrenListed(
                    self.directories
                        .iter()
                        .filter(|d| d.directory().parent_id() == Some(*id))
                        .cloned()
                        .collect(),
                ),
                DirectoryAction::Finish(_) | DirectoryAction::Return(_) => return action,
                _ => {
                    self.writes += 1;
                    return action;
                }
            };
            let (next_state, next_action) = directory_update_step(run, state, event);
            state = next_state;
            action = next_action;
        }
    }
}

#[test]
fn directory_action_cannot_move_a_directory_outside_the_member_workspace() {
    let mut tree = Tree { directories: Vec::new(), writes: 0 };
    let workspace = tree.add(DirectoryId::root(), "workspace", "workspace");
    let outside = tree.add(DirectoryId::root(), "outside", "outside");
    let inside = tree.add(workspace, "inside", "workspace/inside");
    let inside_revision = tree.find(inside).unwrap().directory().revision();

    let mut command = asset_core::directory::contract::UpdateDirectory::new(inside_revision);
    command.parent_id = Some(outside);
    let run = DirectoryUpdateRun { id: inside, command, required_ancestor: Some(workspace) };
    match tree.update(&run) {
        DirectoryAction::Finish(Err(CoreError::Forbidden { .. })) => {}
        other => panic!("expected a refusal, got {other:?}"),
    }
    assert_eq!(tree.writes, 0);
    assert_eq!(tree.find(inside).unwrap().path().path(), "workspace/inside");

    let mut stale = asset_core::directory::contract::UpdateDirectory::new(inside_revision + 1);
    stale.name = Some("renamed".to_string());
    let run = DirectoryUpdateRun { id: inside, command: stale, required_ancestor: Some(workspace) };
    assert!(matches!(
        tree.update(&run),
        DirectoryAction::Finish(Err(CoreError::RevisionConflict { subject: Subject::Directory, .. }))
    ));
    assert_eq!(tree.writes, 0);
}

#[test]
fn member_cannot_replace_content_outside_the_workspace() {
    let workspace_id = DirectoryId::new();
    let outside_id = DirectoryId::new();
    let workspace = DirectoryLocation::new(workspace_id, DirectoryPath::from_path("workspace").unwrap());
    let outside = AccessTarget {
        directory: DirectoryLocation::new(outside_id, DirectoryPath::from_path("outside").unwrap()),
        permission: DirectoryPermission::Write,
    };
    let result = run_access(&AccessContext::new(UserId(3), false), Some(outside), Some(workspace), move |a, c| {
        a == workspace_id && c == workspace_id
    });
    assert!(matches!(result, AccessAction::Finish(Err(CoreError::Forbidden { .. }))));
}

#[test]
fn index_refresh_writes_the_stored_directory_and_rebuilds_when_a_write_fails() {
    let library = DirectoryId::new();
    let stored = child(library, "photos", "core:directory").into_directory();
    let id = stored.id();
    let (state, action) = index_maintenance_step(IndexMaintenance::Refresh(id), DirectoryEvent::Started);
    assert!(matches!(&action, DirectoryAction::LoadAll(ids) if ids == &vec![id]));
    let (state, action) = index_maintenance_step(state, DirectoryEvent::DirectoriesLoaded(vec![Some(stored)]));
    assert!(matches!(&action, DirectoryAction::UpsertIndex(d) if d.id() == id && d.name() == "photos"));
    let (state, action) =
        index_maintenance_step(state, DirectoryEvent::Failed(CoreError::Conflict(Conflict::DirectoryCycle)));
    assert!(matches!(action, DirectoryAction::RebuildIndex));
    let (_, action) = index_maintenance_step(state, DirectoryEvent::Completed);
    assert!(matches!(action, DirectoryAction::Finish(Ok(true))));

    let (state, _) = index_maintenance_step(IndexMaintenance::Refresh(id), DirectoryEvent::Started);
    let (_, action) = index_maintenance_step(state, DirectoryEvent::DirectoriesLoaded(vec![None]));
    assert!(matches!(
        action,
        DirectoryAction::Finish(Err(CoreError::NotFound { subject: Subject::Directory, .. }))
    ));

    let (state, action) = index_maintenance_step(IndexMaintenance::Remove(id), DirectoryEvent::Started);
    assert!(matches!(action, DirectoryAction::RemoveFromIndex(removed) if removed == id));
    let (_, action) = index_maintenance_step(state, DirectoryEvent::Completed);
    assert!(matches!(action, DirectoryAction::Finish(Ok(true))));
}

#[test]
fn content_builders_record_what_storage_reported() {
    let sum = Checksum::sha256(&hex_sha256(b"x")).unwrap();
    let verified =
        asset_core::resource::content::build_verified_content(1, Some("text/plain".to_string()), sum.clone(), Some(7))
            .unwrap();
    assert_eq!(verified.size(), 1);
    assert_eq!(verified.checksum().unwrap().value(), sum.value());
    assert_eq!(verified.verification_status(), asset_core::domain::resource::ContentVerificationStatus::Verified);
    assert_eq!(verified.modified_at(), Some(7));
    let pending = asset_core::resource::content::build_pending_content(2, None, None).unwrap();
    assert!(pending.checksum().is_none());
    assert_eq!(pending.verification_status(), asset_core::domain::resource::ContentVerificationStatus::Pending);
    let failed =
        asset_core::resource::content::build_failed_content(3, None, "unreadable".to_string(), Some(9)).unwrap();
    assert_eq!(failed.verification_status(), asset_core::domain::resource::ContentVerificationStatus::Failed);
    assert_eq!(failed.modified_at(), Some(9));
    assert_eq!(
        asset_core::domain::checksum::placeholder_checksum().unwrap().value(),
        "e3b0c44298fc1c149afbf4c8996fb92427ae41e4649b934ca495991b7852b855"
    );
    assert!(CoreError::Conflict(Conflict::DirectoryCycle).is_conflict());
    assert!(CoreError::RevisionConflict { subject: Subject::Resource, id: 1 }.is_conflict());
    assert!(!CoreError::WeakPassword.is_conflict());
    assert!(asset_core::resource::content::provides_text_edit(&vec!["text_edit".to_string()]));
    assert!(!asset_core::resource::content::provides_text_edit(&vec!["preview".to_string()]));
}

#[test]
fn directory_actions_are_described_and_resolved_from_the_kind_lineage() {
    let actions = || {
        vec![
            action_with_effects("core.directory.inspect", &[]),
            action_with_effects("core.directory.delete", &["delete"]),
        ]
    };
    let described = asset_core::action::orchestration::describe_directory_actions(actions(), true);
    let ids: Vec<&str> = described.available_actions().iter().map(|a| a.id()).collect();
    assert_eq!(ids, vec!["core.directory.inspect"]);
    assert!(matches!(
        asset_core::action::orchestration::resolve_directory_action(actions(), true, "core.directory.delete"),
        Err(CoreError::Unsupported { subject: Subject::DirectoryAction })
    ));
    assert_eq!(
        asset_core::action::orchestration::resolve_directory_action(actions(), false, "core.directory.delete")
            .unwrap()
            .label(),
        "core.directory.delete"
    );
}
