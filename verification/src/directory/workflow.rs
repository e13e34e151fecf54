//! Decisions of the Directory service's mutations.
//!
//! Each workflow is a state machine: the caller performs the returned [`DirectoryAction`] against
//! the Directory store, index, registry or physical storage, reports its outcome as a
//! [`DirectoryEvent`], and steps again until the action is `Finish` or `Return`.

use crate::directory::contract::UpdateDirectory;
use crate::directory::domain::{
    default_directory_kind, invalid_directory_name, opt_directory_kind, updates_view, Directory,
    DirectoryKind, DirectoryRelocation, DirectoryRelocationView, DirectoryRevisionUpdate,
    DirectoryView, LocatedDirectory,
};
use crate::domain::ids::DirectoryId;
use crate::domain::path::{child_path, valid_segment, DirectoryPath};
use crate::domain::resource::{opt_text, DirectoryLocation};
use crate::error::{Conflict, CoreError, Invariant, Subject};
use vstd::prelude::*;

verus! {

/// The outcome of the last performed action.
#[derive(Debug)]
pub enum DirectoryEvent {
    /// No action was performed yet.
    Started,
    /// The index returned this located Directory.
    DirectoryFound(Option<LocatedDirectory>),
    /// Whether the candidate is the ancestor itself or lies below it.
    Contains(bool),
    /// The registry's default child kind of a kind.
    DefaultChildKind(Option<DirectoryKind>),
    /// The index listed these children.
    ChildrenListed(Vec<LocatedDirectory>),
    /// The store returned these aggregates, in the order asked.
    DirectoriesLoaded(Vec<Option<Directory>>),
    /// Whether a physical directory exists.
    Presence(bool),
    /// Whether a revision-guarded write applied.
    Applied(bool),
    /// Whether a Directory has no children and no Resources.
    Empty(bool),
    /// The action completed.
    Completed,
    /// The action failed.
    Failed(CoreError),
}

/// The next operation to perform.
#[derive(Debug)]
pub enum DirectoryAction {
    /// Find a located Directory in the index.
    FindById(DirectoryId),
    /// Find the located Directory at a path.
    FindByPath(DirectoryPath),
    /// Whether `candidate` is `ancestor` or lies below it.
    Contains { ancestor: DirectoryId, candidate: DirectoryId },
    /// Fail unless the kind is registered.
    RequireRegistered(DirectoryKind),
    /// Fail unless the kind is registered and allowed below a parent of kind `parent`.
    RequireAllowedUnder { kind: DirectoryKind, parent: DirectoryKind },
    /// Check, in order, that each kind is registered and allowed below `parent`.
    RequireChildKinds { kinds: Vec<DirectoryKind>, parent: DirectoryKind },
    /// Look up the default child kind the registry declares for a kind.
    DefaultChildKind(DirectoryKind),
    /// List the children of a Directory.
    ListChildren(DirectoryId),
    /// Load the stored aggregates, in order, stopping at the first missing one.
    LoadAll(Vec<DirectoryId>),
    /// Report whether a physical directory exists.
    DirectoryExists(DirectoryPath),
    /// Move a physical directory.
    MoveDirectory { from: DirectoryPath, to: DirectoryPath },
    /// Create a physical directory if it is missing.
    EnsureDirectory(DirectoryPath),
    /// Delete an empty physical directory.
    DeleteEmptyDirectory(DirectoryPath),
    /// Report whether a Directory has no children and no Resources.
    IsEmpty(DirectoryId),
    /// Delete the aggregate if it is empty and still has the revision.
    DeleteIfEmpty { id: DirectoryId, revision: u64 },
    /// Apply the writes atomically if every stored aggregate still has its expected revision.
    UpdateBatch(Vec<DirectoryRevisionUpdate>),
    /// Persist a relocation intent.
    BeginRelocation(DirectoryRelocation),
    /// Run the relocation workflow for this intent to completion.
    RunRelocation(DirectoryRelocation),
    /// Clear a relocation intent.
    CompleteRelocation(DirectoryId),
    /// Rebuild the path index.
    RebuildIndex,
    /// Remove a Directory from the path index.
    RemoveFromIndex(DirectoryId),
    /// Insert a new Directory aggregate.
    InsertDirectory(Directory),
    /// Refresh the index entry of a Directory.
    RefreshIndex(DirectoryId),
    /// Write the index entry of a Directory aggregate.
    UpsertIndex(Directory),
    /// The workflow ended with this located Directory.
    Return(LocatedDirectory),
    /// The workflow ended with this result.
    Finish(Result<bool, CoreError>),
}

/// The error reported for an event that does not answer the pending action.
pub open spec fn unexpected_directory_event() -> CoreError {
    CoreError::Invariant(Invariant::UnexpectedRecoveryEvent)
}

fn unexpected() -> (e: CoreError)
    ensures
        e == unexpected_directory_event(),
{
    CoreError::Invariant(Invariant::UnexpectedRecoveryEvent)
}

/// The error reported for a missing Directory.
pub open spec fn directory_not_found(id: DirectoryId) -> CoreError {
    CoreError::NotFound { subject: Subject::Directory, id: id.0 }
}

/// The revision conflict reported for a Directory.
pub open spec fn stale_directory(id: DirectoryId) -> CoreError {
    CoreError::RevisionConflict { subject: Subject::Directory, id: id.0 }
}

/// The kind a child is given when its parent's kind changes: a plain child takes the declared
/// default child kind, if any; any other child keeps its kind.
pub open spec fn desired_child_kind(child: Seq<char>, default_child: Option<Seq<char>>) -> Seq<char> {
    if child == default_directory_kind() {
        match default_child {
            Some(k) => k,
            None => child,
        }
    } else {
        child
    }
}

/// The writes that give each child its desired kind, in order, skipping unchanged children.
pub open spec fn kind_updates(children: Seq<DirectoryView>, default_child: Option<Seq<char>>) -> Seq<
    (DirectoryView, u64),
>
    decreases children.len(),
{
    if children.len() == 0 {
        Seq::empty()
    } else {
        let prev = kind_updates(children.drop_last(), default_child);
        let c = children.last();
        let k = desired_child_kind(c.kind, default_child);
        if k != c.kind {
            prev.push((DirectoryView { kind: k, revision: (c.revision + 1) as u64, ..c }, c.revision))
        } else {
            prev
        }
    }
}

/// Some child whose kind changes already has the largest revision.
pub open spec fn kind_update_overflows(children: Seq<DirectoryView>, default_child: Option<Seq<char>>) -> bool {
    exists|i: int|
        0 <= i < children.len() && desired_child_kind(children[i].kind, default_child)
            != children[i].kind && #[trigger] children[i].revision == u64::MAX
}

/// The aggregates of located Directories.
pub open spec fn located_views(v: Seq<LocatedDirectory>) -> Seq<DirectoryView> {
    v.map_values(|l: LocatedDirectory| l@.0)
}

/// The kind a new or re-kinded child takes below a parent that declares `default_child`.
pub fn desired_kind(child: &DirectoryKind, default_child: &Option<DirectoryKind>) -> (k: DirectoryKind)
    ensures
        k@ == desired_child_kind(child@, opt_directory_kind(*default_child)),
{
    if child.is_default() {
        match default_child {
            Some(d) => d.clone(),
            None => child.clone(),
        }
    } else {
        child.clone()
    }
}

/// The desired kind of each child, in order.
pub fn desired_child_kinds(children: &Vec<LocatedDirectory>, default_child: &Option<DirectoryKind>) -> (r:
    Vec<DirectoryKind>)
    ensures
        r@.len() == children@.len(),
        forall|i: int|
            0 <= i < r@.len() ==> #[trigger] r@[i]@ == desired_child_kind(
                children@[i]@.0.kind,
                opt_directory_kind(*default_child),
            ),
{
    let mut out: Vec<DirectoryKind> = Vec::new();
    let mut i: usize = 0;
    while i < children.len()
        invariant
            i <= children@.len(),
            out@.len() == i,
            forall|j: int|
                0 <= j < i ==> #[trigger] out@[j]@ == desired_child_kind(
                    children@[j]@.0.kind,
                    opt_directory_kind(*default_child),
                ),
        decreases children@.len() - i,
    {
        out.push(desired_kind(children[i].directory().kind(), default_child));
        i = i + 1;
    }
    out
}

/// The writes that give each child its desired kind, each guarded by the revision it was read at.
pub fn child_kind_updates(children: &Vec<LocatedDirectory>, default_child: &Option<DirectoryKind>) -> (r:
    Result<Vec<DirectoryRevisionUpdate>, CoreError>)
    ensures
        ({
            let views = located_views(children@);
            let d = opt_directory_kind(*default_child);
            match r {
                Ok(us) => !kind_update_overflows(views, d) && updates_view(us@) == kind_updates(
                    views,
                    d,
                ),
                Err(e) => kind_update_overflows(views, d) && e == CoreError::Invariant(
                    Invariant::RevisionOverflow,
                ),
            }
        }),
{
    let ghost views = located_views(children@);
    let ghost d = opt_directory_kind(*default_child);
    let mut out: Vec<DirectoryRevisionUpdate> = Vec::new();
    let mut i: usize = 0;
    while i < children.len()
        invariant
            i <= children@.len(),
            views == located_views(children@),
            d == opt_directory_kind(*default_child),
            updates_view(out@) == kind_updates(views.take(i as int), d),
            forall|j: int|
                0 <= j < i ==> !(desired_child_kind(views[j].kind, d) != views[j].kind
                    && #[trigger] views[j].revision == u64::MAX),
        decreases children@.len() - i,
    {
        let child = &children[i];
        let current = child.directory();
        let desired = desired_kind(current.kind(), default_child);
        proof {
            assert(views.take(i + 1).drop_last() =~= views.take(i as int));
            assert(views[i as int] == child@.0);
        }
        if !desired.same_as(current.kind()) {
            if current.revision() == u64::MAX {
                proof {
                    assert(views[i as int].revision == u64::MAX);
                }
                return Err(CoreError::Invariant(Invariant::RevisionOverflow));
            }
            let expected = current.revision();
            let mut updated = current.clone();
            let changed = updated.change_kind(desired);
            match changed {
                Ok(_) => {},
                Err(e) => return Err(e),
            }
            match DirectoryRevisionUpdate::new(updated, expected) {
                Ok(u) => {
                    out.push(u);
                },
                Err(e) => return Err(e),
            }
            proof {
                assert(updates_view(out@) =~= kind_updates(views.take(i as int), d).push(
                    out@.last()@,
                ));
            }
        } else {
            proof {
                assert(updates_view(out@) =~= kind_updates(views.take(i as int + 1), d));
            }
        }
        i = i + 1;
    }
    proof {
        assert(views.take(children@.len() as int) =~= views);
    }
    Ok(out)
}

/// The inputs of a Directory update: the Directory, the command, and the Directory whose subtree
/// both the updated Directory and its new parent must lie in, for callers confined to a scope.
#[derive(Debug)]
pub struct DirectoryUpdateRun {
    pub id: DirectoryId,
    pub command: UpdateDirectory,
    pub required_ancestor: Option<DirectoryId>,
}

/// The command changes the name, the parent or the kind.
pub open spec fn requests_change(c: UpdateDirectory) -> bool {
    c.name is Some || c.parent_id is Some || c.kind is Some
}

/// The kind the Directory has after the update.
pub open spec fn destination_kind(c: UpdateDirectory, t: DirectoryView) -> Seq<char> {
    match opt_directory_kind(c.kind) {
        Some(k) => k,
        None => t.kind,
    }
}

/// The parent the Directory has after the update.
pub open spec fn chosen_parent(c: UpdateDirectory, t: DirectoryView) -> Option<DirectoryId> {
    match c.parent_id {
        Some(p) => Some(p),
        None => t.parent_id,
    }
}

pub open spec fn kind_delta(c: UpdateDirectory, t: DirectoryView) -> nat {
    if destination_kind(c, t) != t.kind { 1 } else { 0 }
}

pub open spec fn name_delta(c: UpdateDirectory, t: DirectoryView) -> nat {
    match opt_text(c.name) {
        Some(n) => if n != t.name { 1 } else { 0 },
        None => 0,
    }
}

pub open spec fn parent_delta(t: DirectoryView, parent: DirectoryId) -> nat {
    if t.parent_id != Some(parent) { 1 } else { 0 }
}

/// The Directory after the kind change, the rename and the move, in that order.
pub open spec fn updated_directory(c: UpdateDirectory, t: DirectoryView, parent: DirectoryId) -> DirectoryView {
    DirectoryView {
        kind: destination_kind(c, t),
        name: match opt_text(c.name) {
            Some(n) => n,
            None => t.name,
        },
        parent_id: Some(parent),
        revision: (t.revision + kind_delta(c, t) + name_delta(c, t) + parent_delta(t, parent)) as u64,
        ..t
    }
}

/// The error, if any, of applying the kind change, the rename and the move in that order.
pub open spec fn apply_error(c: UpdateDirectory, t: DirectoryView, parent: DirectoryId) -> Option<CoreError> {
    let overflow = CoreError::Invariant(Invariant::RevisionOverflow);
    if kind_delta(c, t) == 1 && t.revision == u64::MAX {
        Some(overflow)
    } else if (opt_text(c.name) matches Some(n) && !valid_segment(n)) {
        Some(invalid_directory_name())
    } else if t.revision + kind_delta(c, t) + name_delta(c, t) > u64::MAX {
        Some(overflow)
    } else if t.parent_id is None {
        Some(CoreError::Conflict(Conflict::RootDirectoryCannotBeUpdated))
    } else if t.revision + kind_delta(c, t) + name_delta(c, t) + parent_delta(t, parent) > u64::MAX {
        Some(overflow)
    } else {
        None
    }
}

/// Phases of a Directory update.
#[derive(Debug)]
pub enum DirectoryUpdate {
    Start,
    AwaitTarget,
    AwaitTargetScope { target: LocatedDirectory },
    AwaitKindRegistered { target: LocatedDirectory },
    AwaitCycleCheck { target: LocatedDirectory, parent_id: DirectoryId },
    AwaitParent { target: LocatedDirectory, parent_id: DirectoryId },
    AwaitParentScope { target: LocatedDirectory, parent: LocatedDirectory },
    AwaitParentKind { target: LocatedDirectory, parent: LocatedDirectory },
    AwaitDefaultChildKind { target: LocatedDirectory, parent: LocatedDirectory },
    AwaitChildren {
        target: LocatedDirectory,
        parent: LocatedDirectory,
        default_child: Option<DirectoryKind>,
    },
    AwaitChildKinds {
        target: LocatedDirectory,
        parent: LocatedDirectory,
        default_child: Option<DirectoryKind>,
        children: Vec<LocatedDirectory>,
    },
    AwaitOccupant {
        directory: Directory,
        from: DirectoryLocation,
        destination: DirectoryPath,
        child_updates: Vec<DirectoryRevisionUpdate>,
    },
    AwaitBatch { directory: Directory, destination: DirectoryPath },
    AwaitIndex { directory: Directory, destination: DirectoryPath },
    AwaitSourcePresence {
        directory: Directory,
        from: DirectoryLocation,
        destination: DirectoryPath,
        updates: Vec<DirectoryRevisionUpdate>,
    },
    AwaitDestinationPresence {
        directory: Directory,
        from: DirectoryLocation,
        destination: DirectoryPath,
        updates: Vec<DirectoryRevisionUpdate>,
    },
    AwaitRelocationBegin {
        directory: Directory,
        destination: DirectoryPath,
        relocation: DirectoryRelocation,
    },
    AwaitRelocation { directory: Directory, destination: DirectoryPath },
    Finished,
}

/// The Directory being updated was read at the command's revision, and the updated aggregate
/// keeps its identity.
pub open spec fn directory_update_wf(run: DirectoryUpdateRun, state: DirectoryUpdate) -> bool {
    match state {
        DirectoryUpdate::AwaitTargetScope { target } => target@.0.revision
            == run.command.expected_revision,
        DirectoryUpdate::AwaitKindRegistered { target } => target@.0.revision
            == run.command.expected_revision,
        DirectoryUpdate::AwaitCycleCheck { target, .. } => target@.0.revision
            == run.command.expected_revision,
        DirectoryUpdate::AwaitParent { target, .. } => target@.0.revision
            == run.command.expected_revision,
        DirectoryUpdate::AwaitParentScope { target, .. } => target@.0.revision
            == run.command.expected_revision,
        DirectoryUpdate::AwaitParentKind { target, .. } => target@.0.revision
            == run.command.expected_revision,
        DirectoryUpdate::AwaitDefaultChildKind { target, .. } => target@.0.revision
            == run.command.expected_revision,
        DirectoryUpdate::AwaitChildren { target, .. } => target@.0.revision
            == run.command.expected_revision,
        DirectoryUpdate::AwaitChildKinds { target, .. } => target@.0.revision
            == run.command.expected_revision,
        DirectoryUpdate::AwaitOccupant { directory, from, .. } => directory@.id == from@.0
            && directory@.revision >= run.command.expected_revision,
        DirectoryUpdate::AwaitSourcePresence { directory, from, destination, .. } => directory@.id
            == from@.0,
        DirectoryUpdate::AwaitDestinationPresence { directory, from, destination, .. } => directory@.id
            == from@.0,
        _ => true,
    }
}

/// Safety of the Directory update: aggregates are written only after the destination path was
/// found free of another Directory, in place only when the path does not change, and a
/// relocation intent is recorded only after the destination was seen vacant on disk. The
/// update never moves, creates or deletes physical directories itself.
pub open spec fn directory_update_safe(
    run: DirectoryUpdateRun,
    state: DirectoryUpdate,
    event: DirectoryEvent,
    a: DirectoryAction,
) -> bool {
    match a {
        DirectoryAction::UpdateBatch(_) => (state matches DirectoryUpdate::AwaitOccupant {
            directory,
            from,
            destination,
            ..
        } && destination@ == from@.1 && (event matches DirectoryEvent::DirectoryFound(f) && (f is None
            || f->0@.0.id == directory@.id))),
        DirectoryAction::BeginRelocation(rel) => rel@.directory_id == run.id && (state matches DirectoryUpdate::AwaitDestinationPresence {
            from,
            destination,
            ..
        } && rel@.source == from@.1 && rel@.destination == destination@) && event
            == DirectoryEvent::Presence(false),
        DirectoryAction::RunRelocation(rel) => (state matches DirectoryUpdate::AwaitRelocationBegin {
            relocation,
            ..
        } && relocation@ == rel@) && event == DirectoryEvent::Completed,
        DirectoryAction::MoveDirectory { .. } => false,
        DirectoryAction::EnsureDirectory(_) => false,
        DirectoryAction::DeleteEmptyDirectory(_) => false,
        DirectoryAction::DeleteIfEmpty { .. } => false,
        DirectoryAction::CompleteRelocation(_) => false,
        _ => true,
    }
}

/// The actions of a Directory update that write: the revision-guarded batch and the recording
/// and running of a relocation.
pub open spec fn update_writes(a: DirectoryAction) -> bool {
    a is UpdateBatch || a is BeginRelocation || a is RunRelocation
}

/// The phases of a Directory update that come before any write: reading and checking.
pub open spec fn update_checking(state: DirectoryUpdate) -> bool {
    !(state is AwaitBatch || state is AwaitIndex || state is AwaitRelocationBegin
        || state is AwaitRelocation || state is Finished)
}

/// The refusals a Directory update decides before writing: a stale revision, a change of the
/// root, a cycle, or a destination name that another Directory holds.
pub open spec fn early_update_refusal(a: DirectoryAction) -> bool {
    match a {
        DirectoryAction::Finish(Err(e)) => e is RevisionConflict || e == CoreError::Conflict(
            Conflict::RootDirectoryCannotBeUpdated,
        ) || e == CoreError::Conflict(Conflict::DirectoryCycle) || e == CoreError::Conflict(
            Conflict::DirectoryNameTaken,
        ),
        _ => false,
    }
}

/// What one step of a Directory update keeps across a run: a write leaves the checking phases
/// for good, and past them the update decides none of the early refusals itself.
pub open spec fn update_step_order(state: DirectoryUpdate, event: DirectoryEvent, next: DirectoryUpdate, a: DirectoryAction) -> bool {
    &&& update_writes(a) ==> !update_checking(next)
    &&& !update_checking(state) ==> !update_checking(next)
    &&& (!update_checking(state) && !(event is Failed)) ==> !early_update_refusal(a)
}

proof fn lemma_past_checks_stay_past(
    states: Seq<DirectoryUpdate>,
    events: Seq<DirectoryEvent>,
    actions: Seq<DirectoryAction>,
    from: int,
    to: int,
)
    requires
        states.len() == actions.len() + 1,
        0 <= from <= to < states.len(),
        !update_checking(states[from]),
        forall|i: int| 0 <= i < actions.len() ==> update_step_order(#[trigger] states[i], events[i], states[i + 1], actions[i]),
    ensures
        !update_checking(states[to]),
    decreases to - from,
{
    if from < to {
        assert(update_step_order(states[from], events[from], states[from + 1], actions[from]));
        lemma_past_checks_stay_past(states, events, actions, from + 1, to);
    }
}

/// A Directory update refused for a stale revision, a change of the root, a cycle or a taken
/// name writes nothing: in a run from the start whose operations all succeeded, every step
/// before such a refusal performed no write.
pub proof fn lemma_early_refusals_write_nothing(
    states: Seq<DirectoryUpdate>,
    events: Seq<DirectoryEvent>,
    actions: Seq<DirectoryAction>,
)
    requires
        states.len() == actions.len() + 1,
        events.len() == actions.len(),
        actions.len() > 0,
        states[0] is Start,
        forall|i: int| 0 <= i < actions.len() ==> update_step_order(#[trigger] states[i], events[i], states[i + 1], actions[i]),
        forall|i: int| 0 <= i < events.len() ==> !(#[trigger] events[i] is Failed),
        early_update_refusal(actions.last()),
    ensures
        forall|i: int| 0 <= i < actions.len() ==> !update_writes(#[trigger] actions[i]),
{
    let n = actions.len() as int;
    assert forall|i: int| 0 <= i < n implies !update_writes(#[trigger] actions[i]) by {
        if update_writes(actions[i]) {
            assert(update_step_order(states[i], events[i], states[i + 1], actions[i]));
            if i < n - 1 {
                lemma_past_checks_stay_past(states, events, actions, i + 1, n - 1);
                assert(update_step_order(states[n - 1], events[n - 1], states[n], actions[n - 1]));
                assert(!(events[n - 1] is Failed));
            }
        }
    }
}

fn finish(e: CoreError) -> (r: (DirectoryUpdate, DirectoryAction))
    ensures
        r.0 is Finished && r.1 == DirectoryAction::Finish(Err(e)),
{
    (DirectoryUpdate::Finished, DirectoryAction::Finish(Err(e)))
}

/// One step of updating a Directory.
///
/// The Directory must exist at the command's revision; the root cannot be renamed, moved or
/// re-kinded; a scoped caller may update only inside its scope. The new kind must be registered,
/// the new parent must exist, must not be the Directory or one of its descendants, must lie in
/// the caller's scope, and must accept the kind. When the kind changes, plain children take the
/// kind's declared default child kind. No other Directory may hold the destination path. An
/// update that keeps the path is one revision-guarded batch; one that changes it needs the
/// source on disk and a vacant destination, and runs through a durable relocation intent.
pub fn directory_update_step(run: &DirectoryUpdateRun, state: DirectoryUpdate, event: DirectoryEvent) -> (r:
    (DirectoryUpdate, DirectoryAction))
    requires
        directory_update_wf(*run, state),
    ensures
        directory_update_wf(*run, r.0),
        directory_update_safe(*run, state, event, r.1),
        update_step_order(state, event, r.0, r.1),
        match (state, event) {
            (DirectoryUpdate::Start, _) => r.0 is AwaitTarget && r.1 == DirectoryAction::FindById(
                run.id,
            ),
            (_, DirectoryEvent::Failed(e)) => r.0 is Finished && r.1 == DirectoryAction::Finish(
                Err(e),
            ),
            (DirectoryUpdate::AwaitTarget, DirectoryEvent::DirectoryFound(found)) => match found {
                None => r.0 is Finished && r.1 == DirectoryAction::Finish(
                    Err(directory_not_found(run.id)),
                ),
                Some(t) => if run.command.expected_revision != t@.0.revision {
                    r.0 is Finished && r.1 == DirectoryAction::Finish(Err(stale_directory(run.id)))
                } else if t@.0.id.0 == 0 && requests_change(run.command) {
                    r.0 is Finished && r.1 == DirectoryAction::Finish(
                        Err(CoreError::Conflict(Conflict::RootDirectoryCannotBeUpdated)),
                    )
                } else if run.required_ancestor is Some {
                    r.0 is AwaitTargetScope && r.1 == DirectoryAction::Contains {
                        ancestor: run.required_ancestor->0,
                        candidate: run.id,
                    }
                } else {
                    r.0 is AwaitKindRegistered && (r.1 matches DirectoryAction::RequireRegistered(k)
                        && k@ == destination_kind(run.command, t@.0))
                },
            },
            (DirectoryUpdate::AwaitTargetScope { target }, DirectoryEvent::Contains(inside)) => if inside {
                r.0 is AwaitKindRegistered && (r.1 matches DirectoryAction::RequireRegistered(k)
                    && k@ == destination_kind(run.command, target@.0))
            } else {
                r.0 is Finished && (r.1 matches DirectoryAction::Finish(Err(CoreError::Forbidden { path, .. }))
                    && path@ == target@.1.1)
            },
            (DirectoryUpdate::AwaitKindRegistered { target }, DirectoryEvent::Completed) => match chosen_parent(
                run.command,
                target@.0,
            ) {
                None => r.0 is Finished && r.1 == DirectoryAction::Finish(
                    Err(CoreError::Invariant(Invariant::NonRootDirectoryWithoutParent)),
                ),
                Some(p) => r.0 is AwaitCycleCheck && r.1 == DirectoryAction::Contains {
                    ancestor: target@.0.id,
                    candidate: p,
                },
            },
            (DirectoryUpdate::AwaitCycleCheck { target, parent_id }, DirectoryEvent::Contains(cycle)) => if cycle {
                r.0 is Finished && r.1 == DirectoryAction::Finish(
                    Err(CoreError::Conflict(Conflict::DirectoryCycle)),
                )
            } else {
                r.0 is AwaitParent && r.1 == DirectoryAction::FindById(parent_id)
            },
            (DirectoryUpdate::AwaitParent { target, parent_id }, DirectoryEvent::DirectoryFound(found)) => match found {
                None => r.0 is Finished && r.1 == DirectoryAction::Finish(
                    Err(directory_not_found(parent_id)),
                ),
                Some(p) => if run.required_ancestor is Some {
                    r.0 is AwaitParentScope && r.1 == DirectoryAction::Contains {
                        ancestor: run.required_ancestor->0,
                        candidate: parent_id,
                    }
                } else {
                    r.0 is AwaitParentKind && (r.1 matches DirectoryAction::RequireAllowedUnder {
                        kind,
                        parent,
                    } && kind@ == destination_kind(run.command, target@.0) && parent@ == p@.0.kind)
                },
            },
            (DirectoryUpdate::AwaitParentScope { target, parent }, DirectoryEvent::Contains(inside)) => if inside {
                r.0 is AwaitParentKind && (r.1 matches DirectoryAction::RequireAllowedUnder {
                    kind,
                    parent: pk,
                } && kind@ == destination_kind(run.command, target@.0) && pk@ == parent@.0.kind)
            } else {
                r.0 is Finished && (r.1 matches DirectoryAction::Finish(Err(CoreError::Forbidden { path, .. }))
                    && path@ == parent@.1.1)
            },
            (DirectoryUpdate::AwaitParentKind { target, parent }, DirectoryEvent::Completed) => if run.command.kind is Some {
                r.0 is AwaitDefaultChildKind && (r.1 matches DirectoryAction::DefaultChildKind(k) && k@
                    == destination_kind(run.command, target@.0))
            } else {
                r.0 is AwaitChildren && r.1 == DirectoryAction::ListChildren(target@.0.id)
            },
            (DirectoryUpdate::AwaitDefaultChildKind { target, .. }, DirectoryEvent::DefaultChildKind(_)) => r.0 is AwaitChildren
                && r.1 == DirectoryAction::ListChildren(target@.0.id),
            (
                DirectoryUpdate::AwaitChildren { target, default_child, .. },
                DirectoryEvent::ChildrenListed(children),
            ) => r.0 is AwaitChildKinds && (r.1 matches DirectoryAction::RequireChildKinds {
                kinds,
                parent,
            } && parent@ == destination_kind(run.command, target@.0) && kinds@.len()
                == children@.len() && forall|i: int|
                0 <= i < kinds@.len() ==> #[trigger] kinds@[i]@ == desired_child_kind(
                    children@[i]@.0.kind,
                    opt_directory_kind(default_child),
                )),
            (
                DirectoryUpdate::AwaitChildKinds { target, parent, default_child, children },
                DirectoryEvent::Completed,
            ) => {
                let t = target@.0;
                let views = located_views(children@);
                let d = opt_directory_kind(default_child);
                if kind_update_overflows(views, d) {
                    r.0 is Finished && r.1 == DirectoryAction::Finish(
                        Err(CoreError::Invariant(Invariant::RevisionOverflow)),
                    )
                } else if apply_error(run.command, t, parent@.0.id) is Some {
                    r.0 is Finished && r.1 == DirectoryAction::Finish(
                        Err(apply_error(run.command, t, parent@.0.id)->0),
                    )
                } else {
                    (r.0 matches DirectoryUpdate::AwaitOccupant {
                        directory,
                        from,
                        destination,
                        child_updates,
                    } && directory@ == updated_directory(run.command, t, parent@.0.id) && from@
                        == target@.1 && destination@ == child_path(parent@.1.1, directory@.name)
                        && updates_view(child_updates@) == kind_updates(views, d)) && (r.1 matches DirectoryAction::FindByPath(
                        p,
                    ) && p@ == child_path(parent@.1.1, updated_directory(run.command, t, parent@.0.id).name))
                }
            },
            (
                DirectoryUpdate::AwaitOccupant { directory, from, destination, child_updates },
                DirectoryEvent::DirectoryFound(found),
            ) => if found matches Some(e) && e@.0.id != directory@.id {
                r.0 is Finished && r.1 == DirectoryAction::Finish(
                    Err(CoreError::Conflict(Conflict::DirectoryNameTaken)),
                )
            } else if directory@.revision == run.command.expected_revision && child_updates@.len() == 0 {
                r.0 is Finished && (r.1 matches DirectoryAction::Return(l) && l@ == (directory@, from@))
            } else {
                let own = if directory@.revision > run.command.expected_revision {
                    seq![(directory@, run.command.expected_revision)]
                } else {
                    Seq::empty()
                };
                if destination@ == from@.1 {
                    r.0 is AwaitBatch && (r.1 matches DirectoryAction::UpdateBatch(us) && updates_view(
                        us@,
                    ) == own + updates_view(child_updates@))
                } else {
                    (r.0 matches DirectoryUpdate::AwaitSourcePresence { updates, .. } && updates_view(
                        updates@,
                    ) == own + updates_view(child_updates@)) && (r.1 matches DirectoryAction::DirectoryExists(
                        p,
                    ) && p@ == from@.1)
                }
            },
            (DirectoryUpdate::AwaitBatch { directory, destination }, DirectoryEvent::Applied(applied)) => if applied {
                r.0 is AwaitIndex && r.1 == DirectoryAction::RebuildIndex
            } else {
                r.0 is Finished && r.1 == DirectoryAction::Finish(
                    Err(CoreError::Conflict(Conflict::DirectoryChangedDuringUpdate)),
                )
            },
            (DirectoryUpdate::AwaitIndex { directory, destination }, DirectoryEvent::Completed) => r.0 is Finished
                && (r.1 matches DirectoryAction::Return(l) && l@ == (
                directory@,
                (directory@.id, destination@),
            )),
            (
                DirectoryUpdate::AwaitSourcePresence { directory, from, destination, updates },
                DirectoryEvent::Presence(present),
            ) => if present {
                r.0 is AwaitDestinationPresence && (r.1 matches DirectoryAction::DirectoryExists(p)
                    && p@ == destination@)
            } else {
                r.0 is Finished && r.1 == DirectoryAction::Finish(
                    Err(CoreError::Conflict(Conflict::PhysicalSourceMissing)),
                )
            },
            (
                DirectoryUpdate::AwaitDestinationPresence { directory, from, destination, updates },
                DirectoryEvent::Presence(present),
            ) => if present {
                r.0 is Finished && r.1 == DirectoryAction::Finish(
                    Err(CoreError::Conflict(Conflict::PhysicalDestinationExists)),
                )
            } else if from@.1 == destination@ {
                r.0 is Finished && r.1 == DirectoryAction::Finish(
                    Err(CoreError::Invariant(Invariant::RelocationKeysEqual)),
                )
            } else {
                r.0 is AwaitRelocationBegin && (r.1 matches DirectoryAction::BeginRelocation(rel)
                    && rel@ == (DirectoryRelocationView {
                    directory_id: run.id,
                    source: from@.1,
                    destination: destination@,
                    updates: updates_view(updates@),
                }))
            },
            (DirectoryUpdate::AwaitRelocationBegin { relocation, .. }, DirectoryEvent::Completed) => r.0 is AwaitRelocation
                && r.1 == DirectoryAction::RunRelocation(relocation),
            (DirectoryUpdate::AwaitRelocation { directory, destination }, DirectoryEvent::Completed) => r.0 is Finished
                && (r.1 matches DirectoryAction::Return(l) && l@ == (
                directory@,
                (directory@.id, destination@),
            )),
            _ => r.0 is Finished && r.1 == DirectoryAction::Finish(Err(unexpected_directory_event())),
        },
{
    let started = match &state {
        DirectoryUpdate::Start => true,
        _ => false,
    };
    if !started {
        if let DirectoryEvent::Failed(e) = event {
            return finish(e);
        }
    }
    match state {
        DirectoryUpdate::Start => (DirectoryUpdate::AwaitTarget, DirectoryAction::FindById(run.id)),
        DirectoryUpdate::AwaitTarget => match event {
            DirectoryEvent::DirectoryFound(found) => match found {
                None => finish(CoreError::NotFound { subject: Subject::Directory, id: run.id.0 }),
                Some(target) => {
                    if run.command.expected_revision != target.directory().revision() {
                        return finish(
                            CoreError::RevisionConflict { subject: Subject::Directory, id: run.id.0 },
                        );
                    }
                    let requested = run.command.name.is_some() || run.command.parent_id.is_some()
                        || run.command.kind.is_some();
                    if target.id().is_root() && requested {
                        return finish(CoreError::Conflict(Conflict::RootDirectoryCannotBeUpdated));
                    }
                    match run.required_ancestor {
                        Some(ancestor) => (
                            DirectoryUpdate::AwaitTargetScope { target },
                            DirectoryAction::Contains { ancestor, candidate: run.id },
                        ),
                        None => {
                            let kind = destination_kind_of(run, target.directory());
                            (
                                DirectoryUpdate::AwaitKindRegistered { target },
                                DirectoryAction::RequireRegistered(kind),
                            )
                        },
                    }
                },
            },
            _ => finish(unexpected()),
        },
        DirectoryUpdate::AwaitTargetScope { target } => match event {
            DirectoryEvent::Contains(inside) => {
                if inside {
                    let kind = destination_kind_of(run, target.directory());
                    (
                        DirectoryUpdate::AwaitKindRegistered { target },
                        DirectoryAction::RequireRegistered(kind),
                    )
                } else {
                    finish(
                        CoreError::Forbidden {
                            action: "update directory",
                            path: target.path().path().to_owned(),
                        },
                    )
                }
            },
            _ => finish(unexpected()),
        },
        DirectoryUpdate::AwaitKindRegistered { target } => match event {
            DirectoryEvent::Completed => {
                let parent_id = match run.command.parent_id {
                    Some(p) => Some(p),
                    None => target.directory().parent_id(),
                };
                match parent_id {
                    None => finish(CoreError::Invariant(Invariant::NonRootDirectoryWithoutParent)),
                    Some(parent_id) => {
                        let ancestor = target.id();
                        (
                            DirectoryUpdate::AwaitCycleCheck { target, parent_id },
                            DirectoryAction::Contains { ancestor, candidate: parent_id },
                        )
                    },
                }
            },
            _ => finish(unexpected()),
        },
        DirectoryUpdate::AwaitCycleCheck { target, parent_id } => match event {
            DirectoryEvent::Contains(cycle) => {
                if cycle {
                    finish(CoreError::Conflict(Conflict::DirectoryCycle))
                } else {
                    (
                        DirectoryUpdate::AwaitParent { target, parent_id },
                        DirectoryAction::FindById(parent_id),
                    )
                }
            },
            _ => finish(unexpected()),
        },
        DirectoryUpdate::AwaitParent { target, parent_id } => match event {
            DirectoryEvent::DirectoryFound(found) => match found {
                None => finish(CoreError::NotFound { subject: Subject::Directory, id: parent_id.0 }),
                Some(parent) => match run.required_ancestor {
                    Some(ancestor) => (
                        DirectoryUpdate::AwaitParentScope { target, parent },
                        DirectoryAction::Contains { ancestor, candidate: parent_id },
                    ),
                    None => {
                        let kind = destination_kind_of(run, target.directory());
                        let parent_kind = parent.directory().kind().clone();
                        (
                            DirectoryUpdate::AwaitParentKind { target, parent },
                            DirectoryAction::RequireAllowedUnder { kind, parent: parent_kind },
                        )
                    },
                },
            },
            _ => finish(unexpected()),
        },
        DirectoryUpdate::AwaitParentScope { target, parent } => match event {
            DirectoryEvent::Contains(inside) => {
                if inside {
                    let kind = destination_kind_of(run, target.directory());
                    let parent_kind = parent.directory().kind().clone();
                    (
                        DirectoryUpdate::AwaitParentKind { target, parent },
                        DirectoryAction::RequireAllowedUnder { kind, parent: parent_kind },
                    )
                } else {
                    finish(
                        CoreError::Forbidden {
                            action: "update directory",
                            path: parent.path().path().to_owned(),
                        },
                    )
                }
            },
            _ => finish(unexpected()),
        },
        DirectoryUpdate::AwaitParentKind { target, parent } => match event {
            DirectoryEvent::Completed => {
                if run.command.kind.is_some() {
                    let kind = destination_kind_of(run, target.directory());
                    (
                        DirectoryUpdate::AwaitDefaultChildKind { target, parent },
                        DirectoryAction::DefaultChildKind(kind),
                    )
                } else {
                    let id = target.id();
                    (
                        DirectoryUpdate::AwaitChildren { target, parent, default_child: None },
                        DirectoryAction::ListChildren(id),
                    )
                }
            },
            _ => finish(unexpected()),
        },
        DirectoryUpdate::AwaitDefaultChildKind { target, parent } => match event {
            DirectoryEvent::DefaultChildKind(default_child) => {
                let id = target.id();
                (
                    DirectoryUpdate::AwaitChildren { target, parent, default_child },
                    DirectoryAction::ListChildren(id),
                )
            },
            _ => finish(unexpected()),
        },
        DirectoryUpdate::AwaitChildren { target, parent, default_child } => match event {
            DirectoryEvent::ChildrenListed(children) => {
                let kinds = desired_child_kinds(&children, &default_child);
                let parent_kind = destination_kind_of(run, target.directory());
                (
                    DirectoryUpdate::AwaitChildKinds { target, parent, default_child, children },
                    DirectoryAction::RequireChildKinds { kinds, parent: parent_kind },
                )
            },
            _ => finish(unexpected()),
        },
        DirectoryUpdate::AwaitChildKinds { target, parent, default_child, children } => match event {
            DirectoryEvent::Completed => {
                let child_updates = match child_kind_updates(&children, &default_child) {
                    Ok(us) => us,
                    Err(e) => return finish(e),
                };
                let (directory, from) = target.into_parts();
                match apply_update(run, directory, parent.id()) {
                    Err(e) => finish(e),
                    Ok(directory) => {
                        proof {
                            use_type_invariant(&directory);
                        }
                        match parent.path().child(directory.name()) {
                            Ok(destination) => {
                                let probe = destination.clone();
                                (
                                    DirectoryUpdate::AwaitOccupant {
                                        directory,
                                        from,
                                        destination,
                                        child_updates,
                                    },
                                    DirectoryAction::FindByPath(probe),
                                )
                            },
                            Err(e) => finish(e),
                        }
                    },
                }
            },
            _ => finish(unexpected()),
        },
        DirectoryUpdate::AwaitOccupant { directory, from, destination, child_updates } => match event {
            DirectoryEvent::DirectoryFound(found) => {
                let taken = match &found {
                    Some(e) => e.id() != directory.id(),
                    None => false,
                };
                if taken {
                    return finish(CoreError::Conflict(Conflict::DirectoryNameTaken));
                }
                if directory.revision() == run.command.expected_revision && child_updates.len() == 0 {
                    return match LocatedDirectory::new(directory, from) {
                        Ok(l) => (DirectoryUpdate::Finished, DirectoryAction::Return(l)),
                        Err(e) => finish(e),
                    };
                }
                let mut updates: Vec<DirectoryRevisionUpdate> = Vec::new();
                if directory.revision() > run.command.expected_revision {
                    match DirectoryRevisionUpdate::new(directory.clone(), run.command.expected_revision) {
                        Ok(u) => updates.push(u),
                        Err(e) => return finish(e),
                    }
                }
                let ghost own = updates_view(updates@);
                let mut rest = child_updates;
                updates.append(&mut rest);
                proof {
                    assert(updates_view(updates@) =~= own + updates_view(child_updates@));
                }
                if destination.same_as(from.path()) {
                    (
                        DirectoryUpdate::AwaitBatch { directory, destination },
                        DirectoryAction::UpdateBatch(updates),
                    )
                } else {
                    let probe = from.path().clone();
                    (
                        DirectoryUpdate::AwaitSourcePresence { directory, from, destination, updates },
                        DirectoryAction::DirectoryExists(probe),
                    )
                }
            },
            _ => finish(unexpected()),
        },
        DirectoryUpdate::AwaitBatch { directory, destination } => match event {
            DirectoryEvent::Applied(applied) => {
                if applied {
                    (DirectoryUpdate::AwaitIndex { directory, destination }, DirectoryAction::RebuildIndex)
                } else {
                    finish(CoreError::Conflict(Conflict::DirectoryChangedDuringUpdate))
                }
            },
            _ => finish(unexpected()),
        },
        DirectoryUpdate::AwaitIndex { directory, destination } => match event {
            DirectoryEvent::Completed => located_at(directory, destination),
            _ => finish(unexpected()),
        },
        DirectoryUpdate::AwaitSourcePresence { directory, from, destination, updates } => match event {
            DirectoryEvent::Presence(present) => {
                if present {
                    let probe = destination.clone();
                    (
                        DirectoryUpdate::AwaitDestinationPresence {
                            directory,
                            from,
                            destination,
                            updates,
                        },
                        DirectoryAction::DirectoryExists(probe),
                    )
                } else {
                    finish(CoreError::Conflict(Conflict::PhysicalSourceMissing))
                }
            },
            _ => finish(unexpected()),
        },
        DirectoryUpdate::AwaitDestinationPresence { directory, from, destination, updates } => match event {
            DirectoryEvent::Presence(present) => {
                if present {
                    return finish(CoreError::Conflict(Conflict::PhysicalDestinationExists));
                }
                match DirectoryRelocation::new(run.id, from.path().clone(), destination.clone(), updates) {
                    Ok(relocation) => {
                        let saved = relocation.clone();
                        (
                            DirectoryUpdate::AwaitRelocationBegin { directory, destination, relocation },
                            DirectoryAction::BeginRelocation(saved),
                        )
                    },
                    Err(e) => finish(e),
                }
            },
            _ => finish(unexpected()),
        },
        DirectoryUpdate::AwaitRelocationBegin { directory, destination, relocation } => match event {
            DirectoryEvent::Completed => (
                DirectoryUpdate::AwaitRelocation { directory, destination },
                DirectoryAction::RunRelocation(relocation),
            ),
            _ => finish(unexpected()),
        },
        DirectoryUpdate::AwaitRelocation { directory, destination } => match event {
            DirectoryEvent::Completed => located_at(directory, destination),
            _ => finish(unexpected()),
        },
        DirectoryUpdate::Finished => finish(unexpected()),
    }
}

fn destination_kind_of(run: &DirectoryUpdateRun, current: &Directory) -> (k: DirectoryKind)
    ensures
        k@ == destination_kind(run.command, current@),
{
    match &run.command.kind {
        Some(k) => k.clone(),
        None => current.kind().clone(),
    }
}

fn located_at(directory: Directory, destination: DirectoryPath) -> (r: (DirectoryUpdate, DirectoryAction))
    ensures
        r.0 is Finished,
        r.1 matches DirectoryAction::Return(l) && l@ == (directory@, (directory@.id, destination@)),
{
    let location = DirectoryLocation::new(directory.id(), destination);
    match LocatedDirectory::new(directory, location) {
        Ok(l) => (DirectoryUpdate::Finished, DirectoryAction::Return(l)),
        Err(e) => (DirectoryUpdate::Finished, DirectoryAction::Finish(Err(e))),
    }
}

/// Apply the command's kind change, rename and move, in that order.
fn apply_update(run: &DirectoryUpdateRun, directory: Directory, parent_id: DirectoryId) -> (r: Result<
    Directory,
    CoreError,
>)
    ensures
        match r {
            Ok(d) => apply_error(run.command, directory@, parent_id) is None && d@
                == updated_directory(run.command, directory@, parent_id),
            Err(e) => apply_error(run.command, directory@, parent_id) == Some(e),
        },
{
    let ghost t = directory@;
    let mut directory = directory;
    if let Some(k) = &run.command.kind {
        directory.change_kind(k.clone())?;
    }
    if let Some(n) = &run.command.name {
        directory.rename(n.as_str())?;
    }
    directory.move_to(parent_id)?;
    Ok(directory)
}

/// Every update of a relocation found its Directory in the store.
pub open spec fn all_loaded(loaded: Seq<Option<Directory>>, n: int) -> bool {
    loaded.len() >= n && forall|i: int| 0 <= i < n ==> (#[trigger] loaded[i]) is Some
}

/// Every stored Directory still has the revision its write expects.
pub open spec fn all_expected(loaded: Seq<Option<Directory>>, updates: Seq<(DirectoryView, u64)>) -> bool {
    forall|i: int| 0 <= i < updates.len() ==> (#[trigger] loaded[i])->0@.revision == updates[i].1
}

/// Every stored Directory already is the aggregate its write desires.
pub open spec fn all_applied(loaded: Seq<Option<Directory>>, updates: Seq<(DirectoryView, u64)>) -> bool {
    forall|i: int| 0 <= i < updates.len() ==> (#[trigger] loaded[i])->0@ == updates[i].0
}

/// Compare the stored aggregates with the writes of a relocation: whether all still have the
/// expected revisions, and whether all already are the desired aggregates.
pub fn relocation_snapshot(loaded: &Vec<Option<Directory>>, updates: &Vec<DirectoryRevisionUpdate>) -> (r:
    Result<(bool, bool), CoreError>)
    ensures
        match r {
            Ok((expected, applied)) => all_loaded(loaded@, updates@.len() as int) && expected
                == all_expected(loaded@, updates_view(updates@)) && applied == all_applied(
                loaded@,
                updates_view(updates@),
            ),
            Err(e) => !all_loaded(loaded@, updates@.len() as int) && e == CoreError::Invariant(
                Invariant::RelocationMissingDirectory,
            ),
        },
{
    let ghost us = updates_view(updates@);
    let mut expected = true;
    let mut applied = true;
    let mut i: usize = 0;
    while i < updates.len()
        invariant
            i <= updates@.len(),
            us == updates_view(updates@),
            us.len() == updates@.len(),
            loaded@.len() >= i,
            forall|j: int| 0 <= j < i ==> (#[trigger] loaded@[j]) is Some,
            expected == (forall|j: int| 0 <= j < i ==> (#[trigger] loaded@[j])->0@.revision == us[j].1),
            applied == (forall|j: int| 0 <= j < i ==> (#[trigger] loaded@[j])->0@ == us[j].0),
        decreases updates@.len() - i,
    {
        if i >= loaded.len() {
            return Err(CoreError::Invariant(Invariant::RelocationMissingDirectory));
        }
        match &loaded[i] {
            None => {
                return Err(CoreError::Invariant(Invariant::RelocationMissingDirectory));
            },
            Some(current) => {
                let update = &updates[i];
                proof {
                    assert(us[i as int] == update@);
                }
                expected = expected && current.revision() == update.expected_revision();
                applied = applied && current.same_as(update.directory());
            },
        }
        i = i + 1;
    }
    Ok((expected, applied))
}

/// Phases of completing a Directory relocation.
#[derive(Debug)]
pub enum RelocationRun {
    Start,
    AwaitLoaded,
    AwaitSourcePresence { expected: bool },
    AwaitDestinationPresence { expected: bool, source_exists: bool },
    AwaitMove { expected: bool },
    AwaitAbandon { error: CoreError },
    AwaitBatch,
    AwaitRollback,
    AwaitRollbackCompletion,
    AwaitIndex,
    AwaitCompletion,
    Finished,
}

/// The error reported when moving a relocated directory back fails.
pub open spec fn relocation_rollback_failure(e: CoreError) -> CoreError {
    CoreError::Storage {
        operation: crate::error::StorageOperation::DirectoryRelocationRollback,
        source: Box::new(e),
    }
}

/// Safety of completing a relocation: the subtree is moved forward only when its source exists
/// and its destination does not; the aggregates are written only when every one still has its
/// expected revision, and only after the subtree is at the destination; the subtree moves back
/// only when that write was rejected.
pub open spec fn relocation_run_safe(
    rel: DirectoryRelocation,
    state: RelocationRun,
    event: DirectoryEvent,
    a: DirectoryAction,
) -> bool {
    match a {
        DirectoryAction::MoveDirectory { from, to } => (from@ == rel@.source && to@
            == rel@.destination && (state matches RelocationRun::AwaitDestinationPresence {
            source_exists,
            ..
        } && source_exists) && event == DirectoryEvent::Presence(false)) || (from@
            == rel@.destination && to@ == rel@.source && state is AwaitBatch && event
            == DirectoryEvent::Applied(false)),
        DirectoryAction::UpdateBatch(us) => updates_view(us@) == rel@.updates && ((state matches RelocationRun::AwaitMove {
            expected,
        } && expected && event == DirectoryEvent::Completed) || (state matches RelocationRun::AwaitDestinationPresence {
            expected,
            source_exists,
        } && expected && !source_exists && event == DirectoryEvent::Presence(true))),
        DirectoryAction::CompleteRelocation(id) => id == rel@.directory_id,
        DirectoryAction::LoadAll(_) => true,
        DirectoryAction::DirectoryExists(_) => true,
        DirectoryAction::RebuildIndex => true,
        DirectoryAction::Finish(_) => true,
        _ => false,
    }
}

fn end(e: CoreError) -> (r: (RelocationRun, DirectoryAction))
    ensures
        r.0 is Finished && r.1 == DirectoryAction::Finish(Err(e)),
{
    (RelocationRun::Finished, DirectoryAction::Finish(Err(e)))
}

/// Give up on a relocation: a fresh request clears the intent before reporting the error, a
/// recovery keeps it for the next attempt.
fn abandon(relocation: &DirectoryRelocation, recovering: bool, error: CoreError) -> (r: (
    RelocationRun,
    DirectoryAction,
))
    ensures
        if recovering {
            r.0 is Finished && r.1 == DirectoryAction::Finish(Err(error))
        } else {
            r.0 == RelocationRun::AwaitAbandon { error } && r.1
                == DirectoryAction::CompleteRelocation(relocation@.directory_id)
        },
{
    if recovering {
        end(error)
    } else {
        (
            RelocationRun::AwaitAbandon { error },
            DirectoryAction::CompleteRelocation(relocation.directory_id()),
        )
    }
}

fn write_or_index(relocation: &DirectoryRelocation, expected: bool) -> (r: (RelocationRun, DirectoryAction))
    ensures
        if expected {
            r.0 is AwaitBatch && (r.1 matches DirectoryAction::UpdateBatch(us) && updates_view(us@)
                == relocation@.updates)
        } else {
            r.0 is AwaitIndex && r.1 == DirectoryAction::RebuildIndex
        },
{
    if expected {
        let updates = clone_updates(relocation.updates());
        (RelocationRun::AwaitBatch, DirectoryAction::UpdateBatch(updates))
    } else {
        (RelocationRun::AwaitIndex, DirectoryAction::RebuildIndex)
    }
}

fn clone_updates(v: &Vec<DirectoryRevisionUpdate>) -> (r: Vec<DirectoryRevisionUpdate>)
    ensures
        updates_view(r@) == updates_view(v@),
{
    let mut out: Vec<DirectoryRevisionUpdate> = Vec::new();
    let mut i: usize = 0;
    while i < v.len()
        invariant
            i <= v@.len(),
            out@.len() == i,
            forall|j: int| 0 <= j < i ==> #[trigger] out@[j]@ == v@[j]@,
        decreases v@.len() - i,
    {
        out.push(v[i].clone());
        i = i + 1;
    }
    proof {
        assert(updates_view(out@) =~= updates_view(v@));
    }
    out
}

fn directory_ids(v: &Vec<DirectoryRevisionUpdate>) -> (r: Vec<DirectoryId>)
    ensures
        r@.len() == v@.len(),
        forall|i: int| 0 <= i < r@.len() ==> #[trigger] r@[i] == v@[i]@.0.id,
{
    let mut out: Vec<DirectoryId> = Vec::new();
    let mut i: usize = 0;
    while i < v.len()
        invariant
            i <= v@.len(),
            out@.len() == i,
            forall|j: int| 0 <= j < i ==> #[trigger] out@[j] == v@[j]@.0.id,
        decreases v@.len() - i,
    {
        out.push(v[i].directory().id());
        i = i + 1;
    }
    out
}

/// One step of completing a Directory relocation, for a fresh request or during recovery.
///
/// The stored aggregates must all still have their expected revisions or all already be the
/// desired ones. The subtree is moved unless it already is at the destination; with both or
/// neither present the relocation fails, and a fresh request clears its intent. If the writes
/// are still pending they are applied as one revision-guarded batch; a rejected batch moves the
/// subtree back and reports that the Directory changed. The index is rebuilt and the intent
/// cleared last.
pub fn relocation_step(
    relocation: &DirectoryRelocation,
    recovering: bool,
    state: RelocationRun,
    event: DirectoryEvent,
) -> (r: (RelocationRun, DirectoryAction))
    ensures
        relocation_run_safe(*relocation, state, event, r.1),
        match (state, event) {
            (RelocationRun::Start, _) => r.0 is AwaitLoaded && (r.1 matches DirectoryAction::LoadAll(
                ids,
            ) && ids@.len() == relocation@.updates.len() && forall|i: int|
                0 <= i < ids@.len() ==> #[trigger] ids@[i] == relocation@.updates[i].0.id),
            (RelocationRun::AwaitLoaded, DirectoryEvent::DirectoriesLoaded(loaded)) => if !all_loaded(
                loaded@,
                relocation@.updates.len() as int,
            ) {
                r.0 is Finished && r.1 == DirectoryAction::Finish(
                    Err(CoreError::Invariant(Invariant::RelocationMissingDirectory)),
                )
            } else if !all_expected(loaded@, relocation@.updates) && !all_applied(
                loaded@,
                relocation@.updates,
            ) {
                r.0 is Finished && r.1 == DirectoryAction::Finish(
                    Err(CoreError::Conflict(Conflict::DirectoryRelocationConflictsWithRevisions)),
                )
            } else {
                r.0 == RelocationRun::AwaitSourcePresence {
                    expected: all_expected(loaded@, relocation@.updates),
                } && (r.1 matches DirectoryAction::DirectoryExists(p) && p@ == relocation@.source)
            },
            (RelocationRun::AwaitSourcePresence { expected }, DirectoryEvent::Presence(s)) => r.0
                == RelocationRun::AwaitDestinationPresence { expected, source_exists: s } && (r.1 matches DirectoryAction::DirectoryExists(
                p,
            ) && p@ == relocation@.destination),
            (
                RelocationRun::AwaitDestinationPresence { expected, source_exists },
                DirectoryEvent::Presence(d),
            ) => if source_exists && !d {
                r.0 == RelocationRun::AwaitMove { expected } && r.1 is MoveDirectory
            } else if !source_exists && d {
                if expected {
                    r.0 is AwaitBatch && r.1 is UpdateBatch
                } else {
                    r.0 is AwaitIndex && r.1 == DirectoryAction::RebuildIndex
                }
            } else {
                let error = if d {
                    CoreError::Conflict(Conflict::DirectoryRelocationBothExist)
                } else {
                    CoreError::Invariant(Invariant::RelocationWithoutSourceOrDestination)
                };
                if recovering {
                    r.0 is Finished && r.1 == DirectoryAction::Finish(Err(error))
                } else {
                    r.0 == RelocationRun::AwaitAbandon { error } && r.1
                        == DirectoryAction::CompleteRelocation(relocation@.directory_id)
                }
            },
            (RelocationRun::AwaitMove { expected }, DirectoryEvent::Completed) => if expected {
                r.0 is AwaitBatch && r.1 is UpdateBatch
            } else {
                r.0 is AwaitIndex && r.1 == DirectoryAction::RebuildIndex
            },
            (RelocationRun::AwaitMove { .. }, DirectoryEvent::Failed(e)) => if recovering {
                r.0 is Finished && r.1 == DirectoryAction::Finish(Err(e))
            } else {
                r.0 == RelocationRun::AwaitAbandon { error: e } && r.1
                    == DirectoryAction::CompleteRelocation(relocation@.directory_id)
            },
            (RelocationRun::AwaitAbandon { error }, DirectoryEvent::Completed) => r.0 is Finished
                && r.1 == DirectoryAction::Finish(Err(error)),
            (RelocationRun::AwaitBatch, DirectoryEvent::Applied(applied)) => if applied {
                r.0 is AwaitIndex && r.1 == DirectoryAction::RebuildIndex
            } else {
                r.0 is AwaitRollback && (r.1 matches DirectoryAction::MoveDirectory { from, to }
                    && from@ == relocation@.destination && to@ == relocation@.source)
            },
            (RelocationRun::AwaitRollback, DirectoryEvent::Failed(e)) => r.0 is Finished && r.1
                == DirectoryAction::Finish(Err(relocation_rollback_failure(e))),
            (RelocationRun::AwaitRollback, DirectoryEvent::Completed) => r.0 is AwaitRollbackCompletion
                && r.1 == DirectoryAction::CompleteRelocation(relocation@.directory_id),
            (RelocationRun::AwaitRollbackCompletion, DirectoryEvent::Completed) => r.0 is Finished
                && r.1 == DirectoryAction::Finish(
                Err(CoreError::Conflict(Conflict::DirectoryChangedDuringRelocation)),
            ),
            (RelocationRun::AwaitIndex, DirectoryEvent::Completed) => r.0 is AwaitCompletion && r.1
                == DirectoryAction::CompleteRelocation(relocation@.directory_id),
            (RelocationRun::AwaitCompletion, DirectoryEvent::Completed) => r.0 is Finished && r.1
                == DirectoryAction::Finish(Ok(true)),
            (_, DirectoryEvent::Failed(e)) => r.0 is Finished && r.1 == DirectoryAction::Finish(
                Err(e),
            ),
            _ => r.0 is Finished && r.1 == DirectoryAction::Finish(Err(unexpected_directory_event())),
        },
{
    match state {
        RelocationRun::Start => (
            RelocationRun::AwaitLoaded,
            DirectoryAction::LoadAll(directory_ids(relocation.updates())),
        ),
        RelocationRun::AwaitLoaded => match event {
            DirectoryEvent::DirectoriesLoaded(loaded) => match relocation_snapshot(
                &loaded,
                relocation.updates(),
            ) {
                Err(e) => end(e),
                Ok((expected, applied)) => {
                    if !expected && !applied {
                        end(CoreError::Conflict(Conflict::DirectoryRelocationConflictsWithRevisions))
                    } else {
                        (
                            RelocationRun::AwaitSourcePresence { expected },
                            DirectoryAction::DirectoryExists(relocation.source().clone()),
                        )
                    }
                },
            },
            DirectoryEvent::Failed(e) => end(e),
            _ => end(unexpected()),
        },
        RelocationRun::AwaitSourcePresence { expected } => match event {
            DirectoryEvent::Presence(source_exists) => (
                RelocationRun::AwaitDestinationPresence { expected, source_exists },
                DirectoryAction::DirectoryExists(relocation.destination().clone()),
            ),
            DirectoryEvent::Failed(e) => end(e),
            _ => end(unexpected()),
        },
        RelocationRun::AwaitDestinationPresence { expected, source_exists } => match event {
            DirectoryEvent::Presence(destination_exists) => {
                if source_exists && !destination_exists {
                    (
                        RelocationRun::AwaitMove { expected },
                        DirectoryAction::MoveDirectory {
                            from: relocation.source().clone(),
                            to: relocation.destination().clone(),
                        },
                    )
                } else if !source_exists && destination_exists {
                    write_or_index(relocation, expected)
                } else if destination_exists {
                    abandon(
                        relocation,
                        recovering,
                        CoreError::Conflict(Conflict::DirectoryRelocationBothExist),
                    )
                } else {
                    abandon(
                        relocation,
                        recovering,
                        CoreError::Invariant(Invariant::RelocationWithoutSourceOrDestination),
                    )
                }
            },
            DirectoryEvent::Failed(e) => end(e),
            _ => end(unexpected()),
        },
        RelocationRun::AwaitMove { expected } => match event {
            DirectoryEvent::Completed => write_or_index(relocation, expected),
            DirectoryEvent::Failed(e) => abandon(relocation, recovering, e),
            _ => end(unexpected()),
        },
        RelocationRun::AwaitAbandon { error } => match event {
            DirectoryEvent::Completed => end(error),
            DirectoryEvent::Failed(e) => end(e),
            _ => end(unexpected()),
        },
        RelocationRun::AwaitBatch => match event {
            DirectoryEvent::Applied(applied) => {
                if applied {
                    (RelocationRun::AwaitIndex, DirectoryAction::RebuildIndex)
                } else {
                    (
                        RelocationRun::AwaitRollback,
                        DirectoryAction::MoveDirectory {
                            from: relocation.destination().clone(),
                            to: relocation.source().clone(),
                        },
                    )
                }
            },
            DirectoryEvent::Failed(e) => end(e),
            _ => end(unexpected()),
        },
        RelocationRun::AwaitRollback => match event {
            DirectoryEvent::Completed => (
                RelocationRun::AwaitRollbackCompletion,
                DirectoryAction::CompleteRelocation(relocation.directory_id()),
            ),
            DirectoryEvent::Failed(e) => end(
                CoreError::Storage {
                    operation: crate::error::StorageOperation::DirectoryRelocationRollback,
                    source: Box::new(e),
                },
            ),
            _ => end(unexpected()),
        },
        RelocationRun::AwaitRollbackCompletion => match event {
            DirectoryEvent::Completed => end(
                CoreError::Conflict(Conflict::DirectoryChangedDuringRelocation),
            ),
            DirectoryEvent::Failed(e) => end(e),
            _ => end(unexpected()),
        },
        RelocationRun::AwaitIndex => match event {
            DirectoryEvent::Completed => (
                RelocationRun::AwaitCompletion,
                DirectoryAction::CompleteRelocation(relocation.directory_id()),
            ),
            DirectoryEvent::Failed(e) => end(e),
            _ => end(unexpected()),
        },
        RelocationRun::AwaitCompletion => match event {
            DirectoryEvent::Completed => (RelocationRun::Finished, DirectoryAction::Finish(Ok(true))),
            DirectoryEvent::Failed(e) => end(e),
            _ => end(unexpected()),
        },
        RelocationRun::Finished => match event {
            DirectoryEvent::Failed(e) => end(e),
            _ => end(unexpected()),
        },
    }
}

/// Phases of deleting an empty Directory.
#[derive(Debug)]
pub enum EmptyDeletion {
    Start,
    AwaitFound,
    AwaitEmptiness { current: LocatedDirectory },
    AwaitPhysicalDeletion { current: LocatedDirectory },
    AwaitRecordDeletion { current: LocatedDirectory },
    AwaitIndexRemoval,
    AwaitRestore { error: Option<CoreError> },
    Finished,
}

/// Safety of deleting an empty Directory: the physical directory is deleted only right after the
/// Directory was found empty, and whenever the aggregate deletion does not apply the physical
/// directory is created again before the workflow ends.
pub open spec fn empty_deletion_safe(
    id: DirectoryId,
    state: EmptyDeletion,
    event: DirectoryEvent,
    a: DirectoryAction,
) -> bool {
    match a {
        DirectoryAction::DeleteEmptyDirectory(p) => (state matches EmptyDeletion::AwaitEmptiness {
            current,
        } && p@ == current@.1.1) && event == DirectoryEvent::Empty(true),
        DirectoryAction::EnsureDirectory(p) => state matches EmptyDeletion::AwaitRecordDeletion {
            current,
        } && p@ == current@.1.1,
        DirectoryAction::DeleteIfEmpty { id: d, revision } => d == id && (state matches EmptyDeletion::AwaitPhysicalDeletion {
            current,
        } && revision == current@.0.revision),
        DirectoryAction::Finish(Ok(true)) => state is AwaitIndexRemoval,
        DirectoryAction::FindById(d) => d == id,
        DirectoryAction::IsEmpty(d) => d == id,
        DirectoryAction::RemoveFromIndex(d) => d == id,
        DirectoryAction::Finish(_) => true,
        _ => false,
    }
}

fn stop(r: Result<bool, CoreError>) -> (out: (EmptyDeletion, DirectoryAction))
    ensures
        out.0 is Finished && out.1 == DirectoryAction::Finish(r),
{
    (EmptyDeletion::Finished, DirectoryAction::Finish(r))
}

/// One step of deleting a Directory if it is empty.
///
/// The root is never deleted. A caller that names a revision must match the current one. A
/// Directory that still has children or Resources is kept (`false`). Otherwise the physical
/// directory is deleted first and the aggregate deletion is guarded by emptiness and revision;
/// if that does not apply, the physical directory is restored.
pub fn empty_deletion_step(
    id: DirectoryId,
    caller_revision: Option<u64>,
    state: EmptyDeletion,
    event: DirectoryEvent,
) -> (r: (EmptyDeletion, DirectoryAction))
    ensures
        empty_deletion_safe(id, state, event, r.1),
        match (state, event) {
            (EmptyDeletion::Start, _) => if id.0 == 0 {
                r.0 is Finished && r.1 == DirectoryAction::Finish(Ok(false))
            } else {
                r.0 is AwaitFound && r.1 == DirectoryAction::FindById(id)
            },
            (EmptyDeletion::AwaitFound, DirectoryEvent::DirectoryFound(found)) => match found {
                None => r.0 is Finished && r.1 == DirectoryAction::Finish(
                    Err(directory_not_found(id)),
                ),
                Some(c) => if caller_revision matches Some(x) && x != c@.0.revision {
                    r.0 is Finished && r.1 == DirectoryAction::Finish(Err(stale_directory(id)))
                } else {
                    r.0 == EmptyDeletion::AwaitEmptiness { current: c } && r.1
                        == DirectoryAction::IsEmpty(id)
                },
            },
            (EmptyDeletion::AwaitEmptiness { current }, DirectoryEvent::Empty(empty)) => if empty {
                r.0 == EmptyDeletion::AwaitPhysicalDeletion { current } && (r.1 matches DirectoryAction::DeleteEmptyDirectory(
                    p,
                ) && p@ == current@.1.1)
            } else {
                r.0 is Finished && r.1 == DirectoryAction::Finish(Ok(false))
            },
            (EmptyDeletion::AwaitPhysicalDeletion { current }, DirectoryEvent::Completed) => r.0
                == EmptyDeletion::AwaitRecordDeletion { current } && r.1
                == DirectoryAction::DeleteIfEmpty { id, revision: current@.0.revision },
            (EmptyDeletion::AwaitRecordDeletion { current }, DirectoryEvent::Applied(applied)) => if applied {
                r.0 is AwaitIndexRemoval && r.1 == DirectoryAction::RemoveFromIndex(id)
            } else {
                r.0 == EmptyDeletion::AwaitRestore { error: None } && (r.1 matches DirectoryAction::EnsureDirectory(
                    p,
                ) && p@ == current@.1.1)
            },
            (EmptyDeletion::AwaitRecordDeletion { current }, DirectoryEvent::Failed(e)) => r.0
                == EmptyDeletion::AwaitRestore { error: Some(e) } && (r.1 matches DirectoryAction::EnsureDirectory(
                p,
            ) && p@ == current@.1.1),
            (EmptyDeletion::AwaitIndexRemoval, DirectoryEvent::Completed) => r.0 is Finished && r.1
                == DirectoryAction::Finish(Ok(true)),
            (EmptyDeletion::AwaitRestore { error }, DirectoryEvent::Completed) => r.0 is Finished
                && r.1 == DirectoryAction::Finish(
                match error {
                    Some(e) => Err(e),
                    None => Ok(false),
                },
            ),
            (_, DirectoryEvent::Failed(e)) => r.0 is Finished && r.1 == DirectoryAction::Finish(
                Err(e),
            ),
            _ => r.0 is Finished && r.1 == DirectoryAction::Finish(Err(unexpected_directory_event())),
        },
{
    match state {
        EmptyDeletion::Start => {
            if id.is_root() {
                stop(Ok(false))
            } else {
                (EmptyDeletion::AwaitFound, DirectoryAction::FindById(id))
            }
        },
        EmptyDeletion::AwaitFound => match event {
            DirectoryEvent::DirectoryFound(found) => match found {
                None => stop(Err(CoreError::NotFound { subject: Subject::Directory, id: id.0 })),
                Some(current) => {
                    let stale = match caller_revision {
                        Some(x) => x != current.directory().revision(),
                        None => false,
                    };
                    if stale {
                        stop(Err(CoreError::RevisionConflict { subject: Subject::Directory, id: id.0 }))
                    } else {
                        (EmptyDeletion::AwaitEmptiness { current }, DirectoryAction::IsEmpty(id))
                    }
                },
            },
            DirectoryEvent::Failed(e) => stop(Err(e)),
            _ => stop(Err(unexpected())),
        },
        EmptyDeletion::AwaitEmptiness { current } => match event {
            DirectoryEvent::Empty(empty) => {
                if empty {
                    let path = current.path().clone();
                    (
                        EmptyDeletion::AwaitPhysicalDeletion { current },
                        DirectoryAction::DeleteEmptyDirectory(path),
                    )
                } else {
                    stop(Ok(false))
                }
            },
            DirectoryEvent::Failed(e) => stop(Err(e)),
            _ => stop(Err(unexpected())),
        },
        EmptyDeletion::AwaitPhysicalDeletion { current } => match event {
            DirectoryEvent::Completed => {
                let revision = current.directory().revision();
                (
                    EmptyDeletion::AwaitRecordDeletion { current },
                    DirectoryAction::DeleteIfEmpty { id, revision },
                )
            },
            DirectoryEvent::Failed(e) => stop(Err(e)),
            _ => stop(Err(unexpected())),
        },
        EmptyDeletion::AwaitRecordDeletion { current } => match event {
            DirectoryEvent::Applied(applied) => {
                if applied {
                    (EmptyDeletion::AwaitIndexRemoval, DirectoryAction::RemoveFromIndex(id))
                } else {
                    let path = current.path().clone();
                    (
                        EmptyDeletion::AwaitRestore { error: None },
                        DirectoryAction::EnsureDirectory(path),
                    )
                }
            },
            DirectoryEvent::Failed(e) => {
                let path = current.path().clone();
                (EmptyDeletion::AwaitRestore { error: Some(e) }, DirectoryAction::EnsureDirectory(path))
            },
            _ => stop(Err(unexpected())),
        },
        EmptyDeletion::AwaitIndexRemoval => match event {
            DirectoryEvent::Completed => stop(Ok(true)),
            DirectoryEvent::Failed(e) => stop(Err(e)),
            _ => stop(Err(unexpected())),
        },
        EmptyDeletion::AwaitRestore { error } => match event {
            DirectoryEvent::Completed => match error {
                Some(e) => stop(Err(e)),
                None => stop(Ok(false)),
            },
            DirectoryEvent::Failed(e) => stop(Err(e)),
            _ => stop(Err(unexpected())),
        },
        EmptyDeletion::Finished => match event {
            DirectoryEvent::Failed(e) => stop(Err(e)),
            _ => stop(Err(unexpected())),
        },
    }
}

/// Phases of refreshing or removing one entry of the rebuildable Directory index.
#[derive(Debug)]
pub enum IndexMaintenance {
    /// Refresh the entry of this Directory from the authoritative store.
    Refresh(DirectoryId),
    /// Remove the entry of this Directory.
    Remove(DirectoryId),
    AwaitLoad(DirectoryId),
    AwaitWrite,
    AwaitRebuild,
    Finished,
}

/// One step of maintaining an index entry. The index is a projection of the store: a refresh
/// writes the stored aggregate (a Directory the store does not hold is not found), and when
/// writing or removing the entry fails the whole index is rebuilt from the store instead.
pub fn index_maintenance_step(state: IndexMaintenance, event: DirectoryEvent) -> (r: (IndexMaintenance, DirectoryAction))
    ensures
        match (state, event) {
            (IndexMaintenance::Refresh(id), _) => r.0 == IndexMaintenance::AwaitLoad(id) && (r.1 matches DirectoryAction::LoadAll(ids)
                && ids@ == seq![id]),
            (IndexMaintenance::Remove(id), _) => r.0 is AwaitWrite && r.1 == DirectoryAction::RemoveFromIndex(id),
            (IndexMaintenance::AwaitLoad(id), DirectoryEvent::DirectoriesLoaded(found)) => if found@.len() == 1 && found@[0] is Some {
                r.0 is AwaitWrite && r.1 == DirectoryAction::UpsertIndex(found@[0]->0)
            } else {
                r.1 == DirectoryAction::Finish(Err(CoreError::NotFound { subject: Subject::Directory, id: id.0 }))
            },
            (IndexMaintenance::AwaitWrite, DirectoryEvent::Completed) => r.1 == DirectoryAction::Finish(Ok(true)),
            (IndexMaintenance::AwaitWrite, DirectoryEvent::Failed(_)) => r.0 is AwaitRebuild && r.1 is RebuildIndex,
            (IndexMaintenance::AwaitRebuild, DirectoryEvent::Completed) => r.1 == DirectoryAction::Finish(Ok(true)),
            (IndexMaintenance::AwaitLoad(_), DirectoryEvent::Failed(e)) => r.1 == DirectoryAction::Finish(Err(e)),
            (IndexMaintenance::AwaitRebuild, DirectoryEvent::Failed(e)) => r.1 == DirectoryAction::Finish(Err(e)),
            (IndexMaintenance::Finished, DirectoryEvent::Failed(e)) => r.0 is Finished && r.1
                == DirectoryAction::Finish(Err(e)),
            _ => r.0 is Finished && r.1 == DirectoryAction::Finish(Err(unexpected_directory_event())),
        },
{
    match state {
        IndexMaintenance::Refresh(id) => (IndexMaintenance::AwaitLoad(id), DirectoryAction::LoadAll(vec![id])),
        IndexMaintenance::Remove(id) => (IndexMaintenance::AwaitWrite, DirectoryAction::RemoveFromIndex(id)),
        IndexMaintenance::AwaitLoad(id) => match event {
            DirectoryEvent::DirectoriesLoaded(found) => {
                let mut found = found;
                if found.len() == 1 {
                    match found.pop() {
                        Some(Some(directory)) => {
                            return (IndexMaintenance::AwaitWrite, DirectoryAction::UpsertIndex(directory));
                        },
                        _ => {},
                    }
                }
                (
                    IndexMaintenance::Finished,
                    DirectoryAction::Finish(Err(CoreError::NotFound { subject: Subject::Directory, id: id.0 })),
                )
            },
            DirectoryEvent::Failed(e) => (IndexMaintenance::Finished, DirectoryAction::Finish(Err(e))),
            _ => (IndexMaintenance::Finished, DirectoryAction::Finish(Err(unexpected()))),
        },
        IndexMaintenance::AwaitWrite => match event {
            DirectoryEvent::Completed => (IndexMaintenance::Finished, DirectoryAction::Finish(Ok(true))),
            DirectoryEvent::Failed(_) => (IndexMaintenance::AwaitRebuild, DirectoryAction::RebuildIndex),
            _ => (IndexMaintenance::Finished, DirectoryAction::Finish(Err(unexpected()))),
        },
        IndexMaintenance::AwaitRebuild => match event {
            DirectoryEvent::Completed => (IndexMaintenance::Finished, DirectoryAction::Finish(Ok(true))),
            DirectoryEvent::Failed(e) => (IndexMaintenance::Finished, DirectoryAction::Finish(Err(e))),
            _ => (IndexMaintenance::Finished, DirectoryAction::Finish(Err(unexpected()))),
        },
        IndexMaintenance::Finished => match event {
            DirectoryEvent::Failed(e) => (IndexMaintenance::Finished, DirectoryAction::Finish(Err(e))),
            _ => (IndexMaintenance::Finished, DirectoryAction::Finish(Err(unexpected()))),
        },
    }
}

} // verus!
