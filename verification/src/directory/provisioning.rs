//! Decisions of creating Directories: a child created by a user or an action, and the
//! materialization of a whole path by trusted provisioning or a storage import.

use crate::directory::domain::{
    default_directory_kind, opt_directory_kind, Directory, DirectoryKind, DirectoryView,
    LocatedDirectory,
};
use crate::directory::workflow::{
    desired_child_kind, directory_not_found, unexpected_directory_event, DirectoryAction,
    DirectoryEvent,
};
use crate::domain::ids::DirectoryId;
use crate::domain::path::{
    child_path, lemma_prefix_valid, lemma_suffix_valid, pos_ok, valid_path, valid_segment, DirectoryPath,
};
use crate::domain::resource::DirectoryLocation;
use crate::error::{Conflict, CoreError, Invariant, Subject};
use vstd::prelude::*;

verus! {

/// The inputs of creating a child Directory. An action that created it names the parent revision
/// it ran against; a scoped caller names the Directory the parent must lie in.
#[derive(Debug)]
pub struct CreateChildRun {
    pub parent_id: DirectoryId,
    pub name: String,
    pub kind: DirectoryKind,
    pub expected_parent_revision: Option<u64>,
    pub required_ancestor: Option<DirectoryId>,
}

/// Phases of creating a child Directory.
#[derive(Debug)]
pub enum CreateChild {
    Start,
    AwaitKindRegistered,
    AwaitParent,
    AwaitScope { parent: LocatedDirectory },
    AwaitDefaultChildKind { parent: LocatedDirectory },
    AwaitAllowed { parent: LocatedDirectory, kind: DirectoryKind },
    AwaitOccupant { directory: Directory, path: DirectoryPath },
    AwaitPresence { directory: Directory, path: DirectoryPath },
    AwaitEnsured { directory: Directory, path: DirectoryPath, existed: bool },
    AwaitInsert { directory: Directory, path: DirectoryPath, existed: bool },
    AwaitCleanup { error: CoreError },
    AwaitRefresh { directory: Directory, path: DirectoryPath },
    Finished,
}

fn end(e: CoreError) -> (r: (CreateChild, DirectoryAction))
    ensures
        r.0 is Finished && r.1 == DirectoryAction::Finish(Err(e)),
{
    (CreateChild::Finished, DirectoryAction::Finish(Err(e)))
}

fn unexpected() -> (e: CoreError)
    ensures
        e == unexpected_directory_event(),
{
    CoreError::Invariant(Invariant::UnexpectedRecoveryEvent)
}

/// The created Directory and its path belong to the run.
pub open spec fn create_child_wf(run: CreateChildRun, state: CreateChild) -> bool {
    match state {
        CreateChild::AwaitOccupant { directory, path } => directory@.parent_id == Some(
            run.parent_id,
        ) && directory@.name == run.name@ && directory@.revision == 1,
        CreateChild::AwaitPresence { directory, path } => directory@.parent_id == Some(
            run.parent_id,
        ) && directory@.name == run.name@ && directory@.revision == 1,
        CreateChild::AwaitEnsured { directory, .. } => directory@.parent_id == Some(run.parent_id)
            && directory@.name == run.name@ && directory@.revision == 1,
        CreateChild::AwaitInsert { directory, .. } => directory@.parent_id == Some(run.parent_id)
            && directory@.name == run.name@ && directory@.revision == 1,
        CreateChild::AwaitRefresh { directory, .. } => directory@.parent_id == Some(run.parent_id)
            && directory@.name == run.name@,
        _ => true,
    }
}

/// Safety of creating a child: a Directory is inserted only as a new child of the run's parent
/// under the run's name, after its path was found free; a physical directory is removed only
/// when the insert failed and the directory did not exist before.
pub open spec fn create_child_safe(
    run: CreateChildRun,
    state: CreateChild,
    event: DirectoryEvent,
    a: DirectoryAction,
) -> bool {
    match a {
        DirectoryAction::InsertDirectory(d) => d@.parent_id == Some(run.parent_id) && d@.name
            == run.name@ && d@.revision == 1 && state is AwaitEnsured,
        DirectoryAction::DeleteEmptyDirectory(p) => (state matches CreateChild::AwaitInsert {
            path,
            existed,
            ..
        } && !existed && p@ == path@) && event is Failed,
        DirectoryAction::MoveDirectory { .. } => false,
        DirectoryAction::UpdateBatch(_) => false,
        DirectoryAction::DeleteIfEmpty { .. } => false,
        _ => true,
    }
}

/// One step of creating a child Directory.
///
/// The requested kind must be registered and the parent must exist; an action's creation fails
/// when the parent changed since the action ran, and a scoped caller may only create inside its
/// scope. A plain child takes the parent kind's declared default child kind, which must be
/// allowed below the parent. The name must be free; the physical directory is ensured before the
/// aggregate is inserted, and removed again if the insert fails and it did not exist before.
pub fn create_child_step(run: &CreateChildRun, state: CreateChild, event: DirectoryEvent) -> (r: (
    CreateChild,
    DirectoryAction,
))
    requires
        create_child_wf(*run, state),
    ensures
        create_child_wf(*run, r.0),
        create_child_safe(*run, state, event, r.1),
        match (state, event) {
            (CreateChild::Start, _) => r.0 is AwaitKindRegistered && (r.1 matches DirectoryAction::RequireRegistered(
                k,
            ) && k@ == run.kind@),
            (CreateChild::AwaitParent, DirectoryEvent::DirectoryFound(found)) => match found {
                None => r.0 is Finished && r.1 == DirectoryAction::Finish(
                    Err(directory_not_found(run.parent_id)),
                ),
                Some(p) => if run.expected_parent_revision matches Some(x) && x != p@.0.revision {
                    r.0 is Finished && r.1 == DirectoryAction::Finish(
                        Err(CoreError::Conflict(Conflict::DirectoryChangedWhileActionExecuted)),
                    )
                } else if run.required_ancestor is Some {
                    (r.0 matches CreateChild::AwaitScope { parent: q } && q@ == p@) && r.1
                        == DirectoryAction::Contains {
                        ancestor: run.required_ancestor->0,
                        candidate: run.parent_id,
                    }
                } else {
                    (r.0 matches CreateChild::AwaitDefaultChildKind { parent: q } && q@ == p@) && (
                    r.1 matches DirectoryAction::DefaultChildKind(k) && k@ == p@.0.kind)
                },
            },
            (CreateChild::AwaitScope { parent }, DirectoryEvent::Contains(inside)) => if inside {
                (r.0 matches CreateChild::AwaitDefaultChildKind { parent: p } && p@ == parent@) && (
                r.1 matches DirectoryAction::DefaultChildKind(k) && k@ == parent@.0.kind)
            } else {
                r.0 is Finished && (r.1 matches DirectoryAction::Finish(Err(CoreError::Forbidden { path, .. }))
                    && path@ == parent@.1.1)
            },
            (CreateChild::AwaitDefaultChildKind { parent }, DirectoryEvent::DefaultChildKind(d)) => (r.0 matches CreateChild::AwaitAllowed {
                parent: q,
                kind: k,
            } && q@ == parent@ && k@ == desired_child_kind(run.kind@, opt_directory_kind(d))) && (
            r.1 matches DirectoryAction::RequireAllowedUnder { kind, parent: pk } && kind@
                == desired_child_kind(run.kind@, opt_directory_kind(d)) && pk@ == parent@.0.kind),
            (CreateChild::AwaitAllowed { parent, kind }, DirectoryEvent::Completed) => if !valid_segment(
                run.name@,
            ) {
                r.0 is Finished && r.1 == DirectoryAction::Finish(
                    Err(crate::directory::domain::invalid_directory_name()),
                )
            } else {
                (r.0 matches CreateChild::AwaitOccupant { directory, path } && directory@.kind == kind@
                    && path@ == child_path(parent@.1.1, run.name@)) && (r.1 matches DirectoryAction::FindByPath(p)
                    && p@ == child_path(parent@.1.1, run.name@))
            },
            (CreateChild::AwaitOccupant { .. }, DirectoryEvent::DirectoryFound(Some(_))) => r.0 is Finished
                && r.1 == DirectoryAction::Finish(Err(CoreError::Conflict(Conflict::DirectoryNameTaken))),
            (CreateChild::AwaitInsert { path, existed, .. }, DirectoryEvent::Failed(e)) => if existed {
                r.0 is Finished && r.1 == DirectoryAction::Finish(Err(e))
            } else {
                r.0 == (CreateChild::AwaitCleanup { error: e }) && r.1 is DeleteEmptyDirectory
            },
            (CreateChild::AwaitCleanup { error }, _) => r.0 is Finished && r.1
                == DirectoryAction::Finish(Err(error)),
            (CreateChild::AwaitRefresh { directory, path }, DirectoryEvent::Completed) => r.0 is Finished
                && (r.1 matches DirectoryAction::Return(l) && l@ == (
                directory@,
                (directory@.id, path@),
            )),
            (CreateChild::AwaitKindRegistered, DirectoryEvent::Completed) => r.0 is AwaitParent && r.1
                == DirectoryAction::FindById(run.parent_id),
            (CreateChild::AwaitOccupant { directory, path }, DirectoryEvent::DirectoryFound(None)) => (r.0 matches CreateChild::AwaitPresence {
                directory: d,
                path: q,
            } && d@ == directory@ && q@ == path@) && (r.1 matches DirectoryAction::DirectoryExists(x)
                && x@ == path@),
            (CreateChild::AwaitPresence { directory, path }, DirectoryEvent::Presence(existed)) => (r.0 matches CreateChild::AwaitEnsured {
                directory: d,
                path: q,
                existed: e,
            } && d@ == directory@ && q@ == path@ && e == existed) && (r.1 matches DirectoryAction::EnsureDirectory(
                x,
            ) && x@ == path@),
            (CreateChild::AwaitEnsured { directory, path, existed }, DirectoryEvent::Completed) => (r.0 matches CreateChild::AwaitInsert {
                directory: d,
                path: q,
                existed: e,
            } && d@ == directory@ && q@ == path@ && e == existed) && (r.1 matches DirectoryAction::InsertDirectory(
                x,
            ) && x@ == directory@),
            (CreateChild::AwaitInsert { directory, path, .. }, DirectoryEvent::Completed) => (r.0 matches CreateChild::AwaitRefresh {
                directory: d,
                path: q,
            } && d@ == directory@ && q@ == path@) && r.1 == DirectoryAction::RefreshIndex(directory@.id),
            (_, DirectoryEvent::Failed(e)) => r.0 is Finished && r.1 == DirectoryAction::Finish(
                Err(e),
            ),
            _ => r.0 is Finished && r.1 == DirectoryAction::Finish(Err(unexpected_directory_event())),
        },
{
    match state {
        CreateChild::Start => (
            CreateChild::AwaitKindRegistered,
            DirectoryAction::RequireRegistered(run.kind.clone()),
        ),
        CreateChild::AwaitKindRegistered => match event {
            DirectoryEvent::Completed => (CreateChild::AwaitParent, DirectoryAction::FindById(run.parent_id)),
            DirectoryEvent::Failed(e) => end(e),
            _ => end(unexpected()),
        },
        CreateChild::AwaitParent => match event {
            DirectoryEvent::DirectoryFound(found) => match found {
                None => end(CoreError::NotFound { subject: Subject::Directory, id: run.parent_id.0 }),
                Some(parent) => {
                    let changed = match run.expected_parent_revision {
                        Some(x) => x != parent.directory().revision(),
                        None => false,
                    };
                    if changed {
                        return end(CoreError::Conflict(Conflict::DirectoryChangedWhileActionExecuted));
                    }
                    match run.required_ancestor {
                        Some(ancestor) => (
                            CreateChild::AwaitScope { parent },
                            DirectoryAction::Contains { ancestor, candidate: run.parent_id },
                        ),
                        None => {
                            let parent_kind = parent.directory().kind().clone();
                            (
                                CreateChild::AwaitDefaultChildKind { parent },
                                DirectoryAction::DefaultChildKind(parent_kind),
                            )
                        },
                    }
                },
            },
            DirectoryEvent::Failed(e) => end(e),
            _ => end(unexpected()),
        },
        CreateChild::AwaitScope { parent } => match event {
            DirectoryEvent::Contains(inside) => {
                if inside {
                    let parent_kind = parent.directory().kind().clone();
                    (
                        CreateChild::AwaitDefaultChildKind { parent },
                        DirectoryAction::DefaultChildKind(parent_kind),
                    )
                } else {
                    end(
                        CoreError::Forbidden {
                            action: "create directory",
                            path: parent.path().path().to_owned(),
                        },
                    )
                }
            },
            DirectoryEvent::Failed(e) => end(e),
            _ => end(unexpected()),
        },
        CreateChild::AwaitDefaultChildKind { parent } => match event {
            DirectoryEvent::DefaultChildKind(default_child) => {
                let kind = crate::directory::workflow::desired_kind(&run.kind, &default_child);
                let parent_kind = parent.directory().kind().clone();
                let allowed = kind.clone();
                (
                    CreateChild::AwaitAllowed { parent, kind },
                    DirectoryAction::RequireAllowedUnder { kind: allowed, parent: parent_kind },
                )
            },
            DirectoryEvent::Failed(e) => end(e),
            _ => end(unexpected()),
        },
        CreateChild::AwaitAllowed { parent, kind } => match event {
            DirectoryEvent::Completed => {
                let directory = match Directory::new_with_kind(run.parent_id, run.name.as_str(), kind) {
                    Ok(d) => d,
                    Err(e) => return end(e),
                };
                let path = match parent.path().child(run.name.as_str()) {
                    Ok(p) => p,
                    Err(e) => return end(e),
                };
                let probe = path.clone();
                (CreateChild::AwaitOccupant { directory, path }, DirectoryAction::FindByPath(probe))
            },
            DirectoryEvent::Failed(e) => end(e),
            _ => end(unexpected()),
        },
        CreateChild::AwaitOccupant { directory, path } => match event {
            DirectoryEvent::DirectoryFound(found) => {
                if found.is_some() {
                    return end(CoreError::Conflict(Conflict::DirectoryNameTaken));
                }
                let probe = path.clone();
                (CreateChild::AwaitPresence { directory, path }, DirectoryAction::DirectoryExists(probe))
            },
            DirectoryEvent::Failed(e) => end(e),
            _ => end(unexpected()),
        },
        CreateChild::AwaitPresence { directory, path } => match event {
            DirectoryEvent::Presence(existed) => {
                let target = path.clone();
                (
                    CreateChild::AwaitEnsured { directory, path, existed },
                    DirectoryAction::EnsureDirectory(target),
                )
            },
            DirectoryEvent::Failed(e) => end(e),
            _ => end(unexpected()),
        },
        CreateChild::AwaitEnsured { directory, path, existed } => match event {
            DirectoryEvent::Completed => {
                let inserted = directory.clone();
                (
                    CreateChild::AwaitInsert { directory, path, existed },
                    DirectoryAction::InsertDirectory(inserted),
                )
            },
            DirectoryEvent::Failed(e) => end(e),
            _ => end(unexpected()),
        },
        CreateChild::AwaitInsert { directory, path, existed } => match event {
            DirectoryEvent::Completed => {
                let id = directory.id();
                (CreateChild::AwaitRefresh { directory, path }, DirectoryAction::RefreshIndex(id))
            },
            DirectoryEvent::Failed(error) => {
                if existed {
                    end(error)
                } else {
                    (CreateChild::AwaitCleanup { error }, DirectoryAction::DeleteEmptyDirectory(path))
                }
            },
            _ => end(unexpected()),
        },
        CreateChild::AwaitCleanup { error } => end(error),
        CreateChild::AwaitRefresh { directory, path } => match event {
            DirectoryEvent::Completed => {
                let location = DirectoryLocation::new(directory.id(), path);
                match LocatedDirectory::new(directory, location) {
                    Ok(l) => (CreateChild::Finished, DirectoryAction::Return(l)),
                    Err(e) => end(e),
                }
            },
            DirectoryEvent::Failed(e) => end(e),
            _ => end(unexpected()),
        },
        CreateChild::Finished => match event {
            DirectoryEvent::Failed(e) => end(e),
            _ => end(unexpected()),
        },
    }
}

/// The first `k` characters of a path, as a Directory path.
pub open spec fn path_prefix(p: Seq<char>, k: int) -> Seq<char> {
    if k == 0 {
        Seq::empty()
    } else {
        p.subrange(0, k)
    }
}

/// Position `k` of `p` ends a segment (or is the start).
pub open spec fn at_boundary(p: Seq<char>, k: int) -> bool {
    0 <= k <= p.len() && (k == 0 || k == p.len() || p[k] == '/')
}

/// Where the segment after boundary `offset` starts: at 0, or just past the `/` at `offset`.
pub open spec fn segment_start(offset: int) -> int {
    if offset == 0 {
        0
    } else {
        offset + 1
    }
}

/// `p[start..end]` is a whole segment: non-empty, free of `/`, and followed by `/` or the end.
pub open spec fn whole_segment(p: Seq<char>, start: int, end: int) -> bool {
    &&& 0 <= start < end <= p.len()
    &&& (end == p.len() || p[end] == '/')
    &&& forall|i: int| start <= i < end ==> p[i] != '/'
}

/// What going on below `parent` (at boundary `offset` of `path`) answers: `parent` itself once
/// the whole path is covered, otherwise a lookup of the prefix that ends with the next segment.
pub open spec fn advance_result(
    path: Seq<char>,
    parent: (DirectoryView, (DirectoryId, Seq<char>)),
    offset: int,
    r: (Materialize, DirectoryAction),
) -> bool {
    if offset >= path.len() {
        r.0 is Finished && (r.1 matches DirectoryAction::Return(l) && l@ == parent)
    } else {
        &&& r.0 matches Materialize::AwaitSegment { parent: p, name, next, end } && p@ == parent
            && whole_segment(path, segment_start(offset), end as int) && name@ == path.subrange(
            segment_start(offset),
            end as int,
        ) && next@ == path_prefix(path, end as int) && (r.1 matches DirectoryAction::FindByPath(q)
            && q@ == next@)
    }
}

/// What inserting the missing segment `name` below `parent` answers: a new plain Directory at
/// revision 1 named `name` below `parent`, to be inserted.
pub open spec fn insert_result(
    parent: (DirectoryView, (DirectoryId, Seq<char>)),
    name: Seq<char>,
    next: Seq<char>,
    end: usize,
    existed: bool,
    r: (Materialize, DirectoryAction),
) -> bool {
    &&& r.0 matches Materialize::AwaitSegmentInsert { directory: d, next: n, end: e, existed: x }
        && d@.parent_id == Some(parent.0.id) && d@.name == name && d@.revision == 1 && d@.kind
        == default_directory_kind() && n@ == next && e == end && x == existed && (
    r.1 matches DirectoryAction::InsertDirectory(i) && i@ == d@)
}

/// Phases of materializing a Directory path.
#[derive(Debug)]
pub enum Materialize {
    Start,
    AwaitExisting,
    AwaitImportCheck { found: LocatedDirectory },
    AwaitEnsureExisting { found: LocatedDirectory },
    AwaitRoot,
    AwaitSegment { parent: LocatedDirectory, name: String, next: DirectoryPath, end: usize },
    AwaitSegmentPresence { parent: LocatedDirectory, name: String, next: DirectoryPath, end: usize },
    AwaitSegmentEnsure {
        parent: LocatedDirectory,
        name: String,
        next: DirectoryPath,
        end: usize,
        existed: bool,
    },
    AwaitSegmentInsert { directory: Directory, next: DirectoryPath, end: usize, existed: bool },
    AwaitSegmentCleanup { error: CoreError },
    AwaitSegmentRefresh { directory: Directory, next: DirectoryPath, end: usize },
    Finished,
}

/// The path built so far is the prefix of the requested path up to a segment boundary, and a
/// pending segment name is a valid single segment.
pub open spec fn materialize_wf(path: DirectoryPath, state: Materialize) -> bool {
    match state {
        Materialize::AwaitImportCheck { found } => found@.1.1 == path@,
        Materialize::AwaitEnsureExisting { found } => found@.1.1 == path@,
        Materialize::AwaitSegment { name, next, end, .. } => at_boundary(path@, end as int) && end
            > 0 && next@ == path_prefix(path@, end as int) && valid_segment(name@),
        Materialize::AwaitSegmentPresence { name, next, end, .. } => at_boundary(path@, end as int)
            && end > 0 && next@ == path_prefix(path@, end as int) && valid_segment(name@),
        Materialize::AwaitSegmentEnsure { name, next, end, .. } => at_boundary(path@, end as int)
            && end > 0 && next@ == path_prefix(path@, end as int) && valid_segment(name@),
        Materialize::AwaitSegmentInsert { next, end, .. } => at_boundary(path@, end as int) && end
            > 0 && next@ == path_prefix(path@, end as int),
        Materialize::AwaitSegmentRefresh { next, end, .. } => at_boundary(path@, end as int) && end
            > 0 && next@ == path_prefix(path@, end as int),
        _ => true,
    }
}

fn mat_end(e: CoreError) -> (r: (Materialize, DirectoryAction))
    ensures
        r.0 is Finished && r.1 == DirectoryAction::Finish(Err(e)),
{
    (Materialize::Finished, DirectoryAction::Finish(Err(e)))
}

/// The segment of a valid path between a boundary and the next `/` (or the end) is a valid
/// single segment.
proof fn lemma_whole_segment_valid(p: Seq<char>, start: int, end: int)
    requires
        valid_path(p),
        whole_segment(p, start, end),
        start == 0 || p[start - 1] == '/',
    ensures
        valid_segment(p.subrange(start, end)),
{
    let q = if start == 0 {
        p
    } else {
        lemma_suffix_valid(p, start);
        p.subrange(start, p.len() as int)
    };
    assert(q =~= p.subrange(start, p.len() as int));
    assert(valid_path(q));
    if end < p.len() {
        assert(q[end - start] == '/');
        lemma_prefix_valid(q, end - start);
        assert(q.subrange(0, end - start) =~= p.subrange(start, end));
    } else {
        assert(q =~= p.subrange(start, end));
    }
}

/// Go on below `parent`, whose path is the prefix of `path` up to `offset`: find the next
/// segment, or answer `parent` when the whole path is materialized.
fn advance(path: &DirectoryPath, parent: LocatedDirectory, offset: usize) -> (r: (
    Materialize,
    DirectoryAction,
))
    requires
        at_boundary(path@, offset as int),
        parent@.1.1 == path_prefix(path@, offset as int),
    ensures
        materialize_wf(*path, r.0),
        advance_result(path@, parent@, offset as int, r),
{
    proof {
        use_type_invariant(path);
    }
    let chars = crate::text::chars_of(path.path());
    if offset >= chars.len() {
        proof {
            assert(path@.subrange(0, path@.len() as int) =~= path@);
        }
        return (Materialize::Finished, DirectoryAction::Return(parent));
    }
    let start = if offset == 0 {
        0
    } else {
        offset + 1
    };
    proof {
        assert(valid_path(path@));
        assert(pos_ok(path@, offset as int));
        assert(pos_ok(path@, path@.len() - 1));
        assert(start < path@.len());
        assert(pos_ok(path@, start as int));
    }
    let mut end = start;
    while end < chars.len() && chars[end] != '/'
        invariant
            start <= end <= chars@.len(),
            chars@ == path@,
            forall|i: int| start <= i < end ==> path@[i] != '/',
        decreases chars@.len() - end,
    {
        end = end + 1;
    }
    proof {
        assert(whole_segment(path@, start as int, end as int));
        lemma_whole_segment_valid(path@, start as int, end as int);
    }
    let name = crate::text::substring(path.path(), start, end);
    let next = match parent.path().child(name.as_str()) {
        Ok(p) => p,
        Err(e) => return mat_end(e),
    };
    proof {
        assert(next@ =~= path@.subrange(0, end as int));
    }
    let probe = next.clone();
    (Materialize::AwaitSegment { parent, name, next, end }, DirectoryAction::FindByPath(probe))
}

/// One step of materializing the Directory path `path`: trusted provisioning creates missing
/// aggregates and physical directories; a storage import (`importing`) only records
/// directories that exist physically. Each missing segment becomes a plain Directory below the
/// previous one; a physical directory created for a failed insert is removed again. The answer
/// is the Directory at exactly `path`.
pub fn materialize_step(path: &DirectoryPath, importing: bool, state: Materialize, event: DirectoryEvent) -> (r:
    (Materialize, DirectoryAction))
    requires
        materialize_wf(*path, state),
    ensures
        materialize_wf(*path, r.0),
        r.1 matches DirectoryAction::Return(l) ==> l@.1.1 == path@,
        match r.1 {
            DirectoryAction::EnsureDirectory(_) => !importing,
            DirectoryAction::InsertDirectory(d) => d@.revision == 1 && d@.kind
                == default_directory_kind(),
            _ => true,
        },
        match (state, event) {
            (Materialize::Start, _) => r.0 is AwaitExisting && (r.1 matches DirectoryAction::FindByPath(
                p,
            ) && p@ == path@),
            (Materialize::AwaitExisting, DirectoryEvent::DirectoryFound(Some(f))) => if f@.1.1
                == path@ {
                if importing {
                    (r.0 matches Materialize::AwaitImportCheck { found } && found@ == f@) && (
                    r.1 matches DirectoryAction::DirectoryExists(q) && q@ == path@)
                } else {
                    (r.0 matches Materialize::AwaitEnsureExisting { found } && found@ == f@) && (
                    r.1 matches DirectoryAction::EnsureDirectory(q) && q@ == path@)
                }
            } else {
                r.0 is Finished && r.1 == DirectoryAction::Finish(Err(unexpected_directory_event()))
            },
            (Materialize::AwaitExisting, DirectoryEvent::DirectoryFound(None)) => r.0 is AwaitRoot
                && (r.1 matches DirectoryAction::FindById(id) && id.0 == 0),
            (Materialize::AwaitImportCheck { found }, DirectoryEvent::Presence(present)) => if present {
                r.0 is Finished && (r.1 matches DirectoryAction::Return(l) && l@ == found@)
            } else {
                r.0 is Finished && r.1 == DirectoryAction::Finish(
                    Err(CoreError::Invariant(Invariant::StorageImportPathMissing)),
                )
            },
            (Materialize::AwaitEnsureExisting { found }, DirectoryEvent::Completed) => r.0 is Finished
                && (r.1 matches DirectoryAction::Return(l) && l@ == found@),
            (Materialize::AwaitRoot, DirectoryEvent::DirectoryFound(None)) => r.0 is Finished && r.1
                == DirectoryAction::Finish(Err(CoreError::Invariant(Invariant::RootDirectoryMissing))),
            (Materialize::AwaitRoot, DirectoryEvent::DirectoryFound(Some(root))) => if root@.1.1.len()
                == 0 {
                advance_result(path@, root@, 0, r)
            } else {
                r.0 is Finished && r.1 == DirectoryAction::Finish(
                    Err(CoreError::Invariant(Invariant::RootDirectoryMissing)),
                )
            },
            (
                Materialize::AwaitSegment { next, end, .. },
                DirectoryEvent::DirectoryFound(Some(existing)),
            ) => if existing@.1.1 == next@ {
                advance_result(path@, existing@, end as int, r)
            } else {
                r.0 is Finished && r.1 == DirectoryAction::Finish(Err(unexpected_directory_event()))
            },
            (
                Materialize::AwaitSegment { parent, name, next, end },
                DirectoryEvent::DirectoryFound(None),
            ) => (r.0 matches Materialize::AwaitSegmentPresence { parent: p, name: n, next: x, end: e }
                && p@ == parent@ && n@ == name@ && x@ == next@ && e == end) && (
            r.1 matches DirectoryAction::DirectoryExists(q) && q@ == next@),
            (
                Materialize::AwaitSegmentPresence { parent, name, next, end },
                DirectoryEvent::Presence(existed),
            ) => if importing {
                if existed {
                    insert_result(parent@, name@, next@, end, existed, r)
                } else {
                    r.0 is Finished && r.1 == DirectoryAction::Finish(
                        Err(CoreError::Invariant(Invariant::StorageImportPathMissing)),
                    )
                }
            } else {
                (r.0 matches Materialize::AwaitSegmentEnsure {
                    parent: p,
                    name: n,
                    next: x,
                    end: e,
                    existed: was,
                } && p@ == parent@ && n@ == name@ && x@ == next@ && e == end && was == existed) && (
                r.1 matches DirectoryAction::EnsureDirectory(q) && q@ == next@)
            },
            (
                Materialize::AwaitSegmentEnsure { parent, name, next, end, existed },
                DirectoryEvent::Completed,
            ) => insert_result(parent@, name@, next@, end, existed, r),
            (
                Materialize::AwaitSegmentInsert { directory, next, end, .. },
                DirectoryEvent::Completed,
            ) => (r.0 matches Materialize::AwaitSegmentRefresh { directory: d, next: x, end: e }
                && d@ == directory@ && x@ == next@ && e == end) && r.1 == DirectoryAction::RefreshIndex(
                directory@.id,
            ),
            (
                Materialize::AwaitSegmentInsert { next, existed, .. },
                DirectoryEvent::Failed(error),
            ) => if existed {
                r.0 is Finished && r.1 == DirectoryAction::Finish(Err(error))
            } else {
                (r.0 matches Materialize::AwaitSegmentCleanup { error: kept } && kept == error) && (
                r.1 matches DirectoryAction::DeleteEmptyDirectory(q) && q@ == next@)
            },
            (Materialize::AwaitSegmentCleanup { error }, _) => r.0 is Finished && r.1
                == DirectoryAction::Finish(Err(error)),
            (
                Materialize::AwaitSegmentRefresh { directory, next, end },
                DirectoryEvent::Completed,
            ) => advance_result(path@, (directory@, (directory@.id, next@)), end as int, r),
            (_, DirectoryEvent::Failed(e)) => r.0 is Finished && r.1 == DirectoryAction::Finish(
                Err(e),
            ),
            _ => r.0 is Finished && r.1 == DirectoryAction::Finish(Err(unexpected_directory_event())),
        },
{
    match state {
        Materialize::Start => (Materialize::AwaitExisting, DirectoryAction::FindByPath(path.clone())),
        Materialize::AwaitExisting => match event {
            DirectoryEvent::DirectoryFound(found) => match found {
                Some(found) => {
                    if !found.path().same_as(path) {
                        return mat_end(unexpected());
                    }
                    if importing {
                        (Materialize::AwaitImportCheck { found }, DirectoryAction::DirectoryExists(path.clone()))
                    } else {
                        (Materialize::AwaitEnsureExisting { found }, DirectoryAction::EnsureDirectory(path.clone()))
                    }
                },
                None => (Materialize::AwaitRoot, DirectoryAction::FindById(DirectoryId::root())),
            },
            DirectoryEvent::Failed(e) => mat_end(e),
            _ => mat_end(unexpected()),
        },
        Materialize::AwaitImportCheck { found } => match event {
            DirectoryEvent::Presence(present) => {
                if present {
                    (Materialize::Finished, DirectoryAction::Return(found))
                } else {
                    mat_end(CoreError::Invariant(Invariant::StorageImportPathMissing))
                }
            },
            DirectoryEvent::Failed(e) => mat_end(e),
            _ => mat_end(unexpected()),
        },
        Materialize::AwaitEnsureExisting { found } => match event {
            DirectoryEvent::Completed => (Materialize::Finished, DirectoryAction::Return(found)),
            DirectoryEvent::Failed(e) => mat_end(e),
            _ => mat_end(unexpected()),
        },
        Materialize::AwaitRoot => match event {
            DirectoryEvent::DirectoryFound(found) => match found {
                None => mat_end(CoreError::Invariant(Invariant::RootDirectoryMissing)),
                Some(root) => {
                    if !root.path().is_root() {
                        return mat_end(CoreError::Invariant(Invariant::RootDirectoryMissing));
                    }
                    proof {
                        assert(root@.1.1 =~= path_prefix(path@, 0));
                    }
                    advance(path, root, 0)
                },
            },
            DirectoryEvent::Failed(e) => mat_end(e),
            _ => mat_end(unexpected()),
        },
        Materialize::AwaitSegment { parent, name, next, end } => match event {
            DirectoryEvent::DirectoryFound(found) => match found {
                Some(existing) => {
                    if !existing.path().same_as(&next) {
                        return mat_end(unexpected());
                    }
                    advance(path, existing, end)
                },
                None => {
                    let probe = next.clone();
                    (
                        Materialize::AwaitSegmentPresence { parent, name, next, end },
                        DirectoryAction::DirectoryExists(probe),
                    )
                },
            },
            DirectoryEvent::Failed(e) => mat_end(e),
            _ => mat_end(unexpected()),
        },
        Materialize::AwaitSegmentPresence { parent, name, next, end } => match event {
            DirectoryEvent::Presence(existed) => {
                if importing && !existed {
                    return mat_end(CoreError::Invariant(Invariant::StorageImportPathMissing));
                }
                if importing {
                    insert_segment(parent, name, next, end, existed)
                } else {
                    let target = next.clone();
                    (
                        Materialize::AwaitSegmentEnsure { parent, name, next, end, existed },
                        DirectoryAction::EnsureDirectory(target),
                    )
                }
            },
            DirectoryEvent::Failed(e) => mat_end(e),
            _ => mat_end(unexpected()),
        },
        Materialize::AwaitSegmentEnsure { parent, name, next, end, existed } => match event {
            DirectoryEvent::Completed => insert_segment(parent, name, next, end, existed),
            DirectoryEvent::Failed(e) => mat_end(e),
            _ => mat_end(unexpected()),
        },
        Materialize::AwaitSegmentInsert { directory, next, end, existed } => match event {
            DirectoryEvent::Completed => {
                let id = directory.id();
                (Materialize::AwaitSegmentRefresh { directory, next, end }, DirectoryAction::RefreshIndex(id))
            },
            DirectoryEvent::Failed(error) => {
                if existed {
                    mat_end(error)
                } else {
                    (Materialize::AwaitSegmentCleanup { error }, DirectoryAction::DeleteEmptyDirectory(next))
                }
            },
            _ => mat_end(unexpected()),
        },
        Materialize::AwaitSegmentCleanup { error } => mat_end(error),
        Materialize::AwaitSegmentRefresh { directory, next, end } => match event {
            DirectoryEvent::Completed => {
                let location = DirectoryLocation::new(directory.id(), next);
                match LocatedDirectory::new(directory, location) {
                    Ok(parent) => advance(path, parent, end),
                    Err(e) => mat_end(e),
                }
            },
            DirectoryEvent::Failed(e) => mat_end(e),
            _ => mat_end(unexpected()),
        },
        Materialize::Finished => match event {
            DirectoryEvent::Failed(e) => mat_end(e),
            _ => mat_end(unexpected()),
        },
    }
}

/// Build the plain Directory for the missing segment `name` below `parent`.
fn insert_segment(parent: LocatedDirectory, name: String, next: DirectoryPath, end: usize, existed: bool) -> (r:
    (Materialize, DirectoryAction))
    requires
        valid_segment(name@),
    ensures
        insert_result(parent@, name@, next@, end, existed, r),
{
    let directory = match Directory::new_with_kind(parent.id(), name.as_str(), DirectoryKind::default()) {
        Ok(d) => d,
        Err(e) => return mat_end(e),
    };
    let inserted = directory.clone();
    (Materialize::AwaitSegmentInsert { directory, next, end, existed }, DirectoryAction::InsertDirectory(inserted))
}

} // verus!
