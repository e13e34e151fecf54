//! Workspace scopes: the Directory subtree a user sees as its root, and the translation between
//! the paths a user names and the global Directory paths.

use crate::domain::ids::{DirectoryId, UserId};
use crate::domain::path::{
    lemma_join_valid, lemma_slash_join_parts, lemma_suffix_valid, slash_join, valid_directory_path,
    valid_path, DirectoryPath,
};
use crate::domain::resource::DirectoryLocation;
use crate::error::{CoreError, Invariant, Subject};
use crate::text::{chars_of, is_prefix, join3, substring};
use vstd::prelude::*;

verus! {

/// The permission an operation needs on a Directory.
#[derive(Debug, Clone, Copy, PartialEq, Eq, Structural)]
pub enum DirectoryPermission {
    Read,
    Write,
    Full,
}

/// The action name reported when a permission is refused.
pub fn permission_action(permission: DirectoryPermission) -> (r: &'static str)
    ensures
        r@ == match permission {
            DirectoryPermission::Read => "read"@,
            DirectoryPermission::Write => "write"@,
            DirectoryPermission::Full => "full"@,
        },
{
    match permission {
        DirectoryPermission::Read => "read",
        DirectoryPermission::Write => "write",
        DirectoryPermission::Full => "full",
    }
}

/// The global path a scope rooted at `root` gives to the user path `p`: the user path itself for
/// the global root, the scope root for the user's root, and the joined path otherwise (if it
/// is a valid path).
pub open spec fn resolved_path(root: (DirectoryId, Seq<char>), p: Seq<char>) -> Option<Seq<char>> {
    if root.0.0 == 0 {
        Some(p)
    } else if p.len() == 0 {
        Some(root.1)
    } else if valid_directory_path(slash_join(root.1, p)) {
        Some(slash_join(root.1, p))
    } else {
        None
    }
}

/// `q` lies strictly below the path `root`.
pub open spec fn strictly_below(root: Seq<char>, q: Seq<char>) -> bool {
    root.len() < q.len() && q.subrange(0, root.len() as int) == root && q[root.len() as int] == '/'
}

/// The user path a scope rooted at `root` shows for the global path `q`: the path itself for the
/// global root, the user's root for the scope root, the relative remainder for a path below it;
/// `None` for a path outside the scope.
pub open spec fn projected_path(root: (DirectoryId, Seq<char>), q: Seq<char>) -> Option<Seq<char>> {
    if root.0.0 == 0 {
        Some(q)
    } else if q == root.1 {
        Some(Seq::empty())
    } else if strictly_below(root.1, q) {
        Some(q.subrange(root.1.len() + 1int, q.len() as int))
    } else {
        None
    }
}

/// The Directory a user sees as its root. External paths are relative to it; the services
/// always work with global Directory paths.
#[derive(Debug)]
pub struct WorkspaceScope {
    root: DirectoryLocation,
}

impl View for WorkspaceScope {
    type V = (DirectoryId, Seq<char>);

    closed spec fn view(&self) -> (DirectoryId, Seq<char>) {
        self.root@
    }
}

impl WorkspaceScope {
    /// The scope rooted at a Directory.
    pub fn new(root: DirectoryLocation) -> (r: WorkspaceScope)
        ensures
            r@ == root@,
    {
        WorkspaceScope { root }
    }

    /// The global path of the user path `directory`.
    pub fn resolve(&self, directory: &DirectoryPath) -> (r: Result<DirectoryPath, CoreError>)
        ensures
            match resolved_path(self@, directory@) {
                Some(p) => r matches Ok(d) && d@ == p,
                None => r == Err::<DirectoryPath, CoreError>(CoreError::InvalidDirectoryPath),
            },
    {
        if self.root.id().is_root() {
            return Ok(directory.clone());
        }
        if directory.is_root() {
            return Ok(self.root.path().clone());
        }
        let joined = join3(self.root.path().path(), "/", directory.path());
        proof {
            reveal_strlit("/");
            assert(joined@ =~= slash_join(self@.1, directory@));
        }
        DirectoryPath::from_path(joined.as_str())
    }

    /// The user path of the global path `directory`; a path outside the scope is forbidden.
    pub fn project(&self, directory: &DirectoryPath) -> (r: Result<DirectoryPath, CoreError>)
        ensures
            match projected_path(self@, directory@) {
                Some(p) => r matches Ok(d) && d@ == p,
                None => r matches Err(CoreError::Forbidden { action, path }) && action@ == "read"@
                    && path@ == directory@,
            },
    {
        proof {
            use_type_invariant(directory);
        }
        if self.root.id().is_root() {
            return Ok(directory.clone());
        }
        if directory.same_as(self.root.path()) {
            return Ok(DirectoryPath::root());
        }
        let root = chars_of(self.root.path().path());
        let text = chars_of(directory.path());
        if root.len() < text.len() && is_prefix(&root, &text) && text[root.len()] == '/' {
            let relative = substring(directory.path(), root.len() + 1, text.len());
            proof {
                lemma_suffix_valid(directory@, root@.len() + 1int);
            }
            return DirectoryPath::from_path(relative.as_str());
        }
        Err(CoreError::Forbidden { action: "read", path: directory.path().to_owned() })
    }

    /// The scope's root Directory.
    pub fn root(&self) -> (r: &DirectoryLocation)
        ensures
            r@ == self@,
    {
        &self.root
    }
}

/// Projecting a resolved path gives back the user path: for a scope rooted at the global root,
/// or at a Directory with a non-empty path, every user path resolves, and its projection is the
/// path the user named.
pub proof fn lemma_project_resolved(root: (DirectoryId, Seq<char>), p: Seq<char>)
    requires
        valid_directory_path(root.1),
        valid_directory_path(p),
        root.0.0 != 0 ==> root.1.len() > 0,
    ensures
        resolved_path(root, p) is Some,
        projected_path(root, resolved_path(root, p)->0) == Some(p),
{
    if root.0.0 != 0 && p.len() > 0 {
        lemma_join_valid(root.1, p);
        lemma_slash_join_parts(root.1, p);
        let q = slash_join(root.1, p);
        assert(q != root.1);
    }
}

/// Resolving a projected path gives back the global path: whenever a global path lies in the
/// scope, the user path it projects to resolves to it again.
pub proof fn lemma_resolve_projected(root: (DirectoryId, Seq<char>), q: Seq<char>)
    requires
        valid_directory_path(root.1),
        valid_directory_path(q),
        projected_path(root, q) is Some,
    ensures
        resolved_path(root, projected_path(root, q)->0) == Some(q),
{
    if root.0.0 != 0 && q != root.1 {
        let rel = q.subrange(root.1.len() + 1int, q.len() as int);
        lemma_suffix_valid(q, root.1.len() + 1int);
        assert(slash_join(root.1, rel) =~= q);
    }
}

/// Who performs an operation: a user, possibly an administrator.
#[derive(Debug, Clone, Copy, PartialEq, Eq, Structural)]
pub struct AccessContext {
    pub user_id: UserId,
    pub administrator: bool,
}

impl AccessContext {
    pub fn new(user_id: UserId, administrator: bool) -> (r: AccessContext)
        ensures
            r.user_id == user_id && r.administrator == administrator,
    {
        AccessContext { user_id, administrator }
    }

    pub fn user_id(&self) -> (r: UserId)
        ensures
            r == self.user_id,
    {
        self.user_id
    }

    pub fn is_administrator(&self) -> (r: bool)
        ensures
            r == self.administrator,
    {
        self.administrator
    }
}

/// The Directory an operation needs a permission on.
#[derive(Debug)]
pub struct AccessTarget {
    pub directory: DirectoryLocation,
    pub permission: DirectoryPermission,
}

/// The outcome of the last performed action.
#[derive(Debug)]
pub enum AccessEvent {
    Started,
    /// The root Directory was located.
    RootLocated(DirectoryLocation),
    /// The user store returned the user's workspace Directory, if the user exists.
    WorkspaceFound(Option<DirectoryId>),
    /// The Directory was located.
    DirectoryLocated(DirectoryLocation),
    /// Whether the first Directory contains (or is) the second.
    Contained(bool),
    Failed(CoreError),
}

/// The next operation to perform.
#[derive(Debug)]
pub enum AccessAction {
    LocateRoot,
    /// Find the user and report its workspace Directory.
    FindWorkspace(UserId),
    LocateDirectory(DirectoryId),
    /// Report whether `ancestor` contains (or is) `directory`.
    CheckContains { ancestor: DirectoryId, directory: DirectoryId },
    /// The workflow ended with this scope.
    ReturnScope(WorkspaceScope),
    /// The workflow ended with this result.
    Finish(Result<(), CoreError>),
}

/// Phases of resolving a workspace scope and, for a target, checking access to it.
#[derive(Debug)]
pub enum AccessCheck {
    Start,
    AwaitRoot,
    AwaitWorkspace,
    AwaitWorkspaceDirectory,
    AwaitContains,
    Finished,
}

/// The refusal of `permission` on the Directory at `path`.
pub open spec fn forbidden(permission: DirectoryPermission, path: Seq<char>) -> spec_fn(CoreError) -> bool {
    |e: CoreError| e matches CoreError::Forbidden { action, path: p } && action@ == match permission {
        DirectoryPermission::Read => "read"@,
        DirectoryPermission::Write => "write"@,
        DirectoryPermission::Full => "full"@,
    } && p@ == path
}

fn scope_found(target: &Option<AccessTarget>, root: DirectoryLocation) -> (r: (AccessCheck, AccessAction))
    ensures
        match target {
            None => r.0 is Finished && (r.1 matches AccessAction::ReturnScope(s) && s@ == root@),
            Some(t) => r.0 is AwaitContains && r.1 == (AccessAction::CheckContains {
                ancestor: root@.0,
                directory: t.directory@.0,
            }),
        },
{
    match target {
        None => (AccessCheck::Finished, AccessAction::ReturnScope(WorkspaceScope::new(root))),
        Some(t) => (
            AccessCheck::AwaitContains,
            AccessAction::CheckContains { ancestor: root.id(), directory: t.directory.id() },
        ),
    }
}

/// One step of resolving the workspace scope of `context` and, when there is a `target`,
/// requiring its permission. An administrator's scope is the root Directory; a user's scope is
/// its workspace Directory, and an unknown user is not found. Access is granted exactly when the
/// scope root contains the target Directory; otherwise the permission is refused for the
/// target's path.
pub fn access_step(context: &AccessContext, target: &Option<AccessTarget>, state: AccessCheck, event: AccessEvent) -> (r: (
    AccessCheck,
    AccessAction,
))
    ensures
        match (state, event) {
            (AccessCheck::Start, _) => if context.administrator {
                r.0 is AwaitRoot && r.1 is LocateRoot
            } else {
                r.0 is AwaitWorkspace && r.1 == AccessAction::FindWorkspace(context.user_id)
            },
            (AccessCheck::AwaitWorkspace, AccessEvent::WorkspaceFound(None)) => r.1
                == AccessAction::Finish(
                Err(CoreError::NotFound { subject: Subject::User, id: context.user_id.0 }),
            ),
            (AccessCheck::AwaitWorkspace, AccessEvent::WorkspaceFound(Some(id))) => r.0 is AwaitWorkspaceDirectory
                && r.1 == AccessAction::LocateDirectory(id),
            (AccessCheck::AwaitRoot, AccessEvent::RootLocated(root)) => match target {
                None => r.0 is Finished && (r.1 matches AccessAction::ReturnScope(s) && s@ == root@),
                Some(t) => r.0 is AwaitContains && r.1 == (AccessAction::CheckContains {
                    ancestor: root@.0,
                    directory: t.directory@.0,
                }),
            },
            (AccessCheck::AwaitWorkspaceDirectory, AccessEvent::DirectoryLocated(root)) => match target {
                None => r.0 is Finished && (r.1 matches AccessAction::ReturnScope(s) && s@ == root@),
                Some(t) => r.0 is AwaitContains && r.1 == (AccessAction::CheckContains {
                    ancestor: root@.0,
                    directory: t.directory@.0,
                }),
            },
            (AccessCheck::AwaitContains, AccessEvent::Contained(contained)) => match target {
                Some(t) => if contained {
                    r.1 == AccessAction::Finish(Ok(()))
                } else {
                    r.1 matches AccessAction::Finish(Err(e)) && forbidden(t.permission, t.directory@.1)(e)
                },
                None => r.1 == AccessAction::Finish(
                    Err(CoreError::Invariant(Invariant::UnexpectedRecoveryEvent)),
                ),
            },
            (_, AccessEvent::Failed(e)) => r.0 is Finished && r.1 == AccessAction::Finish(Err(e)),
            _ => r.0 is Finished && r.1 == AccessAction::Finish(
                Err(CoreError::Invariant(Invariant::UnexpectedRecoveryEvent)),
            ),
        },
{
    let unexpected = CoreError::Invariant(Invariant::UnexpectedRecoveryEvent);
    match state {
        AccessCheck::Start => {
            if context.is_administrator() {
                (AccessCheck::AwaitRoot, AccessAction::LocateRoot)
            } else {
                (AccessCheck::AwaitWorkspace, AccessAction::FindWorkspace(context.user_id()))
            }
        },
        AccessCheck::AwaitRoot => match event {
            AccessEvent::RootLocated(root) => scope_found(target, root),
            AccessEvent::Failed(e) => (AccessCheck::Finished, AccessAction::Finish(Err(e))),
            _ => (AccessCheck::Finished, AccessAction::Finish(Err(unexpected))),
        },
        AccessCheck::AwaitWorkspace => match event {
            AccessEvent::WorkspaceFound(found) => match found {
                Some(id) => (AccessCheck::AwaitWorkspaceDirectory, AccessAction::LocateDirectory(id)),
                None => (
                    AccessCheck::Finished,
                    AccessAction::Finish(
                        Err(CoreError::NotFound { subject: Subject::User, id: context.user_id().0 }),
                    ),
                ),
            },
            AccessEvent::Failed(e) => (AccessCheck::Finished, AccessAction::Finish(Err(e))),
            _ => (AccessCheck::Finished, AccessAction::Finish(Err(unexpected))),
        },
        AccessCheck::AwaitWorkspaceDirectory => match event {
            AccessEvent::DirectoryLocated(root) => scope_found(target, root),
            AccessEvent::Failed(e) => (AccessCheck::Finished, AccessAction::Finish(Err(e))),
            _ => (AccessCheck::Finished, AccessAction::Finish(Err(unexpected))),
        },
        AccessCheck::AwaitContains => match event {
            AccessEvent::Contained(contained) => match target {
                Some(t) => {
                    if contained {
                        (AccessCheck::Finished, AccessAction::Finish(Ok(())))
                    } else {
                        (
                            AccessCheck::Finished,
                            AccessAction::Finish(
                                Err(
                                    CoreError::Forbidden {
                                        action: permission_action(t.permission),
                                        path: t.directory.path().path().to_owned(),
                                    },
                                ),
                            ),
                        )
                    }
                },
                None => (AccessCheck::Finished, AccessAction::Finish(Err(unexpected))),
            },
            AccessEvent::Failed(e) => (AccessCheck::Finished, AccessAction::Finish(Err(e))),
            _ => (AccessCheck::Finished, AccessAction::Finish(Err(unexpected))),
        },
        AccessCheck::Finished => match event {
            AccessEvent::Failed(e) => (AccessCheck::Finished, AccessAction::Finish(Err(e))),
            _ => (AccessCheck::Finished, AccessAction::Finish(Err(unexpected))),
        },
    }
}

} // verus!
