//! Decisions of Resource metadata updates and permanent deletions.
//!
//! An update that changes the visible Blob key of a Resource with content goes through a durable
//! relocation intent; every other effective update is a revision-guarded write of the aggregate.

use crate::domain::ids::ResourceId;
use crate::domain::path::{lemma_join_valid, valid_segment, DirectoryPath, StorageKey};
use crate::domain::resource::{opt_text, DirectoryLocation, Resource, ResourceView};
use crate::error::{Conflict, CoreError, FormatField, Invariant};
use crate::resource::contract::{opt_kind, UpdateResource};
use crate::domain::ids::uuid_text;
use crate::domain::path::slash_join;
use crate::resource::domain::{ResourceDeletion, ResourceDeletionView};
use crate::resource::path_resolver::{deletion_key, deletions_dir, resource_key, resource_key_text};
use crate::resource::query::{located_key, LocatedResource, ResourceRelocation};
use crate::resource::recovery::{
    stale, stale_resource, unexpected, unexpected_event, RecoveryEvent, StorageAction,
};
use vstd::prelude::*;

verus! {

/// Whether an optional new name changes the Resource.
pub open spec fn name_change(r: ResourceView, name: Option<Seq<char>>) -> nat {
    match name {
        Some(n) => if n != r.name { 1 } else { 0 },
        None => 0,
    }
}

/// Whether an optional new Directory changes the Resource.
pub open spec fn directory_change(r: ResourceView, directory: Option<crate::domain::ids::DirectoryId>) -> nat {
    match directory {
        Some(d) => if d != r.directory_id { 1 } else { 0 },
        None => 0,
    }
}

/// Whether an optional new kind changes the Resource.
pub open spec fn kind_change(r: ResourceView, kind: Option<Seq<char>>) -> nat {
    match kind {
        Some(k) => if k != r.kind { 1 } else { 0 },
        None => 0,
    }
}

/// The number of effective changes of an update: each one advances the revision by one.
pub open spec fn update_changes(
    r: ResourceView,
    name: Option<Seq<char>>,
    directory: Option<crate::domain::ids::DirectoryId>,
    kind: Option<Seq<char>>,
) -> nat {
    name_change(r, name) + directory_change(r, directory) + kind_change(r, kind)
}

/// The Resource after an update.
pub open spec fn updated_resource(
    r: ResourceView,
    name: Option<Seq<char>>,
    directory: Option<crate::domain::ids::DirectoryId>,
    kind: Option<Seq<char>>,
) -> ResourceView {
    ResourceView {
        name: match name {
            Some(n) => n,
            None => r.name,
        },
        directory_id: match directory {
            Some(d) => d,
            None => r.directory_id,
        },
        kind: match kind {
            Some(k) => k,
            None => r.kind,
        },
        revision: (r.revision + update_changes(r, name, directory, kind)) as u64,
        ..r
    }
}

/// The view of an update that must be written.
pub struct PlannedUpdateView {
    pub desired: ResourceView,
    pub expected_revision: u64,
    pub source: (crate::domain::ids::DirectoryId, Seq<char>),
    pub source_name: Seq<char>,
}

/// An effective update: the desired aggregate, the revision it replaces, and the location the
/// Resource had before the update.
#[derive(Debug)]
pub struct PlannedUpdate {
    desired: Resource,
    expected_revision: u64,
    source: DirectoryLocation,
    source_name: String,
}

impl View for PlannedUpdate {
    type V = PlannedUpdateView;

    closed spec fn view(&self) -> PlannedUpdateView {
        PlannedUpdateView {
            desired: self.desired@,
            expected_revision: self.expected_revision,
            source: self.source@,
            source_name: self.source_name@,
        }
    }
}

impl PlannedUpdate {
    /// The previous name is a valid name and the update advances the revision.
    #[verifier::type_invariant]
    pub open spec fn wf(self) -> bool {
        valid_segment(self@.source_name) && self@.desired.revision > self@.expected_revision
    }

    pub fn desired(&self) -> (r: &Resource)
        ensures
            r@ == self@.desired,
    {
        &self.desired
    }

    pub fn expected_revision(&self) -> (r: u64)
        ensures
            r == self@.expected_revision,
    {
        self.expected_revision
    }

    /// The visible key the Resource had before the update.
    pub fn source_key(&self) -> (k: StorageKey)
        ensures
            k@ == resource_key_text(self@.source.1, self@.source_name),
    {
        proof {
            use_type_invariant(self);
        }
        visible_key(self.source.path(), self.source_name.as_str())
    }
}

/// The outcome of applying an update command to a located Resource.
#[derive(Debug)]
pub enum UpdatePlan {
    /// Nothing changes: the Resource is returned as it is.
    Unchanged(Resource),
    /// The update must be written.
    Write(PlannedUpdate),
}

fn visible_key(directory: &DirectoryPath, name: &str) -> (k: StorageKey)
    requires
        valid_segment(name@),
    ensures
        k@ == resource_key_text(directory@, name@),
{
    proof {
        use_type_invariant(directory);
        if directory@.len() > 0 {
            lemma_join_valid(directory@, name@);
        }
    }
    resource_key(directory, name).unwrap()
}

/// What applying `command` to the located Resource answers.
pub open spec fn begin_update_result(
    located: LocatedResource,
    command: UpdateResource,
    r: Result<UpdatePlan, CoreError>,
) -> bool {
    let cur = located@.0;
    let name = opt_text(command.name);
    let kind = opt_kind(command.kind);
    let changes = update_changes(cur, name, command.directory_id, kind);
    let name_ok = match name {
        Some(n) => valid_segment(n),
        None => true,
    };
    match r {
        Err(e) => (command.expected_revision != cur.revision && e == stale_resource(cur.id))
            || (command.expected_revision == cur.revision && !name_ok && e == (
        CoreError::InvalidFormat { field: FormatField::ResourceName }))
            || (command.expected_revision == cur.revision && name_ok && cur.revision
            + changes > u64::MAX && e == CoreError::Invariant(Invariant::RevisionOverflow)),
        Ok(UpdatePlan::Unchanged(res)) => command.expected_revision == cur.revision
            && name_ok && changes == 0 && res@ == cur,
        Ok(UpdatePlan::Write(p)) => command.expected_revision == cur.revision && name_ok
            && changes > 0 && cur.revision + changes <= u64::MAX && p@ == (
        PlannedUpdateView {
            desired: updated_resource(cur, name, command.directory_id, kind),
            expected_revision: cur.revision,
            source: located@.1,
            source_name: cur.name,
        }),
    }
}

/// Apply an update command to the current snapshot of a Resource.
///
/// A command built against another revision is a revision conflict. An invalid new name is
/// rejected. Each effective change (rename, move, kind change) advances the revision by one; an
/// update with no effective change leaves the Resource as it is.
pub fn begin_update(located: LocatedResource, command: UpdateResource) -> (r: Result<
    UpdatePlan,
    CoreError,
>)
    ensures
        begin_update_result(located, command, r),
{
    let (mut desired, source) = located.into_parts();
    proof {
        use_type_invariant(&desired);
    }
    let ghost cur = desired@;
    let expected_revision = desired.revision();
    let source_name = desired.name().to_owned();
    if command.expected_revision != expected_revision {
        return Err(stale(desired.id()));
    }
    let UpdateResource { expected_revision: _, name, directory_id, kind } = command;
    let ghost kind_view = opt_kind(kind);
    if let Some(n) = name {
        desired.rename(n.as_str())?;
    }
    let ghost after_name = desired@;
    if let Some(d) = directory_id {
        desired.move_to_directory(d)?;
    }
    let ghost after_move = desired@;
    if let Some(k) = kind {
        desired.change_kind(k)?;
    }
    proof {
        assert(desired@ == updated_resource(cur, opt_text(name), directory_id, kind_view));
    }
    if desired.revision() == expected_revision {
        return Ok(UpdatePlan::Unchanged(desired));
    }
    Ok(UpdatePlan::Write(PlannedUpdate { desired, expected_revision, source, source_name }))
}

/// Apply an update command to what a lookup by identity found: a Resource that does not exist is
/// answered with nothing and nothing is decided; an existing one gets the command as
/// `begin_update` applies it.
pub fn begin_update_of(found: Option<LocatedResource>, command: UpdateResource) -> (r: Result<
    Option<UpdatePlan>,
    CoreError,
>)
    ensures
        match found {
            None => r matches Ok(None),
            Some(l) => match r {
                Ok(Some(plan)) => begin_update_result(l, command, Ok(plan)),
                Ok(None) => false,
                Err(e) => begin_update_result(l, command, Err(e)),
            },
        },
{
    match found {
        None => Ok(None),
        Some(located) => match begin_update(located, command) {
            Ok(plan) => Ok(Some(plan)),
            Err(e) => Err(e),
        },
    }
}

/// Phases of writing a planned update.
#[derive(Debug)]
pub enum ResourceUpdate {
    Start,
    AwaitDestination,
    AwaitOccupant { destination: DirectoryLocation },
    AwaitRecheck { source_key: StorageKey, destination_key: StorageKey },
    AwaitSourcePresence { source_key: StorageKey, destination_key: StorageKey },
    AwaitDestinationPresence { source_key: StorageKey, destination_key: StorageKey },
    AwaitIntentSave { relocation: ResourceRelocation },
    AwaitRelocation,
    AwaitCas,
    Finished,
}

/// The keys of a relocation in progress are distinct.
pub open spec fn update_state_wf(state: ResourceUpdate) -> bool {
    match state {
        ResourceUpdate::AwaitRecheck { source_key, destination_key } => source_key@
            != destination_key@,
        ResourceUpdate::AwaitSourcePresence { source_key, destination_key } => source_key@
            != destination_key@,
        ResourceUpdate::AwaitDestinationPresence { source_key, destination_key } => source_key@
            != destination_key@,
        _ => true,
    }
}

/// The error reported when the destination name is taken by another Resource.
pub open spec fn path_occupied() -> CoreError {
    CoreError::Conflict(Conflict::ResourcePathOccupied)
}

/// The actions of a Resource update that write: the revision-guarded write and the recording
/// and running of a relocation.
pub open spec fn resource_update_writes(a: StorageAction) -> bool {
    a is UpdateIfRevision || a is SaveRelocation || a is RunRelocation
}

/// The phases of a Resource update that come before any write.
pub open spec fn resource_update_checking(state: ResourceUpdate) -> bool {
    !(state is AwaitIntentSave || state is AwaitRelocation || state is AwaitCas || state is Finished)
}

/// The refusals a Resource update decides before writing: another Resource holds the
/// destination, the source Blob is missing, or the destination key is taken on disk.
pub open spec fn early_resource_refusal(a: StorageAction) -> bool {
    match a {
        StorageAction::Finish(Err(e)) => e == path_occupied() || e == CoreError::Conflict(
            Conflict::PhysicalSourceMissing,
        ) || e == CoreError::Conflict(Conflict::PhysicalDestinationExists),
        _ => false,
    }
}

/// What one step of a Resource update keeps across a run: a write leaves the checking phases
/// for good, and past them the update decides none of the early refusals itself.
pub open spec fn resource_update_order(state: ResourceUpdate, event: RecoveryEvent, next: ResourceUpdate, a: StorageAction) -> bool {
    &&& resource_update_writes(a) ==> !resource_update_checking(next)
    &&& !resource_update_checking(state) ==> !resource_update_checking(next)
    &&& (!resource_update_checking(state) && !(event is Failed)) ==> !early_resource_refusal(a)
}

proof fn lemma_update_stays_past_checks(
    states: Seq<ResourceUpdate>,
    events: Seq<RecoveryEvent>,
    actions: Seq<StorageAction>,
    from: int,
    to: int,
)
    requires
        states.len() == actions.len() + 1,
        0 <= from <= to < states.len(),
        !resource_update_checking(states[from]),
        forall|i: int| 0 <= i < actions.len() ==> resource_update_order(#[trigger] states[i], events[i], states[i + 1], actions[i]),
    ensures
        !resource_update_checking(states[to]),
    decreases to - from,
{
    if from < to {
        assert(resource_update_order(states[from], events[from], states[from + 1], actions[from]));
        lemma_update_stays_past_checks(states, events, actions, from + 1, to);
    }
}

/// A Resource update refused because the destination is occupied, the source Blob is missing
/// or the destination key is taken writes nothing: in a run from the start whose operations
/// all succeeded, every step before such a refusal performed no write.
pub proof fn lemma_resource_update_refusals_write_nothing(
    states: Seq<ResourceUpdate>,
    events: Seq<RecoveryEvent>,
    actions: Seq<StorageAction>,
)
    requires
        states.len() == actions.len() + 1,
        events.len() == actions.len(),
        actions.len() > 0,
        states[0] is Start,
        forall|i: int| 0 <= i < actions.len() ==> resource_update_order(#[trigger] states[i], events[i], states[i + 1], actions[i]),
        forall|i: int| 0 <= i < events.len() ==> !(#[trigger] events[i] is Failed),
        early_resource_refusal(actions.last()),
    ensures
        forall|i: int| 0 <= i < actions.len() ==> !resource_update_writes(#[trigger] actions[i]),
{
    let n = actions.len() as int;
    assert forall|i: int| 0 <= i < n implies !resource_update_writes(#[trigger] actions[i]) by {
        if resource_update_writes(actions[i]) {
            assert(resource_update_order(states[i], events[i], states[i + 1], actions[i]));
            if i < n - 1 {
                lemma_update_stays_past_checks(states, events, actions, i + 1, n - 1);
                assert(resource_update_order(states[n - 1], events[n - 1], states[n], actions[n - 1]));
                assert(!(events[n - 1] is Failed));
            }
        }
    }
}

/// Step `i` of a recorded run of a Resource update is one that `update_step` can take.
pub open spec fn update_run_step(
    p: PlannedUpdate,
    states: Seq<ResourceUpdate>,
    events: Seq<RecoveryEvent>,
    actions: Seq<StorageAction>,
    i: int,
) -> bool {
    &&& update_transition(p, states[i], events[i], (states[i + 1], actions[i]))
    &&& update_action_safe(p, states[i], events[i], actions[i])
}

/// A Resource update reports success only after it wrote exactly the planned aggregate: in a
/// run from the start that ends in `Finish(Ok(()))`, either the store applied a write of the
/// planned Resource guarded by the revision it replaces, at a visible key that does not change
/// (or for a Resource without content), or a relocation intent for the planned Resource from its
/// previous visible key to its new one, below the Directory the run located, was saved after the
/// source Blob was seen and the destination key was seen vacant, and was then run to completion.
pub proof fn lemma_update_success_wrote_the_plan(
    p: PlannedUpdate,
    states: Seq<ResourceUpdate>,
    events: Seq<RecoveryEvent>,
    actions: Seq<StorageAction>,
)
    requires
        states.len() == actions.len() + 1,
        events.len() == actions.len(),
        actions.len() > 0,
        states[0] is Start,
        forall|i: int| 0 <= i < actions.len() ==> #[trigger] update_run_step(p, states, events, actions, i),
        actions.last() == StorageAction::Finish(Ok(())),
    ensures
        ({
            let n = actions.len() as int;
            let source_key = resource_key_text(p@.source.1, p@.source_name);
            ||| n >= 4 && events[n - 1] == RecoveryEvent::CasApplied(true) && (actions[n
                - 2] matches StorageAction::UpdateIfRevision { desired, expected_revision }
                && desired@ == p@.desired && expected_revision == p@.expected_revision) && (
            states[n - 2] matches ResourceUpdate::AwaitOccupant { destination } && events[n - 3]
                == RecoveryEvent::DirectoryLocated(destination) && (p@.desired.content is None
                || source_key == resource_key_text(destination@.1, p@.desired.name)))
            ||| n >= 8 && events[n - 1] == RecoveryEvent::Completed && events[n - 2]
                == RecoveryEvent::Completed && events[n - 3] == RecoveryEvent::BlobPresence(false)
                && events[n - 4] == RecoveryEvent::BlobPresence(true) && (actions[n
                - 2] matches StorageAction::RunRelocation(run) && (actions[n
                - 3] matches StorageAction::SaveRelocation(saved) && saved@ == run@) && run@.desired
                == p@.desired && run@.expected_revision == p@.expected_revision && run@.source_key
                == source_key && run@.source_key != run@.destination_key && (states[n
                - 6] matches ResourceUpdate::AwaitOccupant { destination } && events[n - 7]
                == RecoveryEvent::DirectoryLocated(destination) && run@.destination_key
                == resource_key_text(destination@.1, p@.desired.name)))
        }),
{
    let n = actions.len() as int;
    assert(update_run_step(p, states, events, actions, n - 1));
    assert(n - 1 != 0);
    assert(update_run_step(p, states, events, actions, n - 2));
    if states[n - 1] is AwaitCas {
        assert(n - 2 != 0);
        assert(update_run_step(p, states, events, actions, n - 3));
        assert(n - 3 != 0);
    } else {
        assert(states[n - 1] is AwaitRelocation);
        assert(update_run_step(p, states, events, actions, n - 3));
        assert(update_run_step(p, states, events, actions, n - 4));
        assert(update_run_step(p, states, events, actions, n - 5));
        assert(update_run_step(p, states, events, actions, n - 6));
        assert(update_run_step(p, states, events, actions, n - 7));
        assert(n - 7 != 0);
    }
}

/// Safety of the update workflow: the aggregate is written in place only when its visible key
/// does not change (or it has no content); a relocation intent is saved only for the planned
/// aggregate, between the two keys of the Resource, after the destination key was seen vacant;
/// the relocation run is the saved one.
pub open spec fn update_action_safe(
    p: PlannedUpdate,
    state: ResourceUpdate,
    event: RecoveryEvent,
    a: StorageAction,
) -> bool {
    match a {
        StorageAction::UpdateIfRevision { desired, expected_revision } => desired@ == p@.desired
            && expected_revision == p@.expected_revision && (state matches ResourceUpdate::AwaitOccupant {
            destination,
        } && (p@.desired.content is None || resource_key_text(p@.source.1, p@.source_name)
            == resource_key_text(destination@.1, p@.desired.name))),
        StorageAction::SaveRelocation(rel) => rel@.desired == p@.desired && rel@.expected_revision
            == p@.expected_revision && (state matches ResourceUpdate::AwaitDestinationPresence {
            source_key,
            destination_key,
        } && source_key@ == rel@.source_key && destination_key@ == rel@.destination_key)
            && event == RecoveryEvent::BlobPresence(false),
        StorageAction::RunRelocation(rel) => (state matches ResourceUpdate::AwaitIntentSave {
            relocation,
        } && relocation@ == rel@) && event == RecoveryEvent::Completed,
        StorageAction::LocateDirectory(id) => id == p@.desired.directory_id,
        StorageAction::FindByDirectoryAndName { directory_id, name } => name@ == p@.desired.name,
        StorageAction::FindResource(id) => id == p@.desired.id,
        StorageAction::BlobExists(_) => true,
        StorageAction::Finish(_) => true,
        _ => false,
    }
}

/// What one step of writing a planned update answers to each event.
pub open spec fn update_transition(
    p: PlannedUpdate,
    state: ResourceUpdate,
    event: RecoveryEvent,
    r: (ResourceUpdate, StorageAction),
) -> bool {
    match (state, event) {
        (ResourceUpdate::Start, _) => r.0 is AwaitDestination && r.1
            == StorageAction::LocateDirectory(p@.desired.directory_id),
        (_, RecoveryEvent::Failed(e)) => r.0 is Finished && r.1 == StorageAction::Finish(
            Err(e),
        ),
        (ResourceUpdate::AwaitDestination, RecoveryEvent::DirectoryLocated(d)) => r.0
            == ResourceUpdate::AwaitOccupant { destination: d } && (r.1 matches StorageAction::FindByDirectoryAndName {
            directory_id,
            name,
        } && directory_id == d@.0 && name@ == p@.desired.name),
        (ResourceUpdate::AwaitOccupant { destination }, RecoveryEvent::ResourceFound(found)) => {
            let source_key = resource_key_text(p@.source.1, p@.source_name);
            let destination_key = resource_key_text(destination@.1, p@.desired.name);
            if found matches Some(o) && o@.0.id != p@.desired.id {
                r.0 is Finished && r.1 == StorageAction::Finish(Err(path_occupied()))
            } else if p@.desired.content is Some && source_key != destination_key {
                (r.0 matches ResourceUpdate::AwaitRecheck { source_key: s, destination_key: d }
                    && s@ == source_key && d@ == destination_key) && r.1
                    == StorageAction::FindResource(p@.desired.id)
            } else {
                r.0 is AwaitCas && r.1 is UpdateIfRevision
            }
        },
        (
            ResourceUpdate::AwaitRecheck { source_key, destination_key },
            RecoveryEvent::ResourceFound(found),
        ) => if found matches Some(c) && c@.0.revision == p@.expected_revision
            && located_key(c@) == source_key@ {
            r.0 == ResourceUpdate::AwaitSourcePresence { source_key, destination_key } && (r.1 matches StorageAction::BlobExists(
                k,
            ) && k@ == source_key@)
        } else {
            r.0 is Finished && r.1 == StorageAction::Finish(
                Err(stale_resource(p@.desired.id)),
            )
        },
        (
            ResourceUpdate::AwaitSourcePresence { source_key, destination_key },
            RecoveryEvent::BlobPresence(present),
        ) => if present {
            r.0 == ResourceUpdate::AwaitDestinationPresence { source_key, destination_key } && (r.1 matches StorageAction::BlobExists(
                k,
            ) && k@ == destination_key@)
        } else {
            r.0 is Finished && r.1 == StorageAction::Finish(
                Err(CoreError::Conflict(Conflict::PhysicalSourceMissing)),
            )
        },
        (
            ResourceUpdate::AwaitDestinationPresence { source_key, destination_key },
            RecoveryEvent::BlobPresence(present),
        ) => if present {
            r.0 is Finished && r.1 == StorageAction::Finish(
                Err(CoreError::Conflict(Conflict::PhysicalDestinationExists)),
            )
        } else {
            r.1 matches StorageAction::SaveRelocation(rel) && rel@
                == (crate::resource::query::ResourceRelocationView {
                desired: p@.desired,
                expected_revision: p@.expected_revision,
                source_key: source_key@,
                destination_key: destination_key@,
            }) && (r.0 matches ResourceUpdate::AwaitIntentSave { relocation } && relocation@ == rel@)
        },
        (ResourceUpdate::AwaitIntentSave { relocation }, RecoveryEvent::Completed) => r.0 is AwaitRelocation
            && r.1 == StorageAction::RunRelocation(relocation),
        (ResourceUpdate::AwaitRelocation, RecoveryEvent::Completed) => r.0 is Finished && r.1
            == StorageAction::Finish(Ok(())),
        (ResourceUpdate::AwaitCas, RecoveryEvent::CasApplied(applied)) => r.0 is Finished
            && r.1 == StorageAction::Finish(
            if applied {
                Ok(())
            } else {
                Err(stale_resource(p@.desired.id))
            },
        ),
        _ => r.0 is Finished && r.1 == StorageAction::Finish(Err(unexpected_event())),
    }
}

/// One step of writing a planned update.
///
/// The destination Directory is located and must not hold another Resource of the same name.
/// A Resource with content whose visible key changes is relocated through a durable intent,
/// after rechecking that it still has the expected revision at the source key, that the source
/// Blob exists and that the destination key is vacant. Otherwise the aggregate is written if the
/// stored one still has the expected revision.
pub fn update_step(plan: &PlannedUpdate, state: ResourceUpdate, event: RecoveryEvent) -> (r: (
    ResourceUpdate,
    StorageAction,
))
    requires
        update_state_wf(state),
    ensures
        resource_update_order(state, event, r.0, r.1),
        update_state_wf(r.0),
        update_action_safe(*plan, state, event, r.1),
        update_transition(*plan, state, event, r),
{
    proof {
        use_type_invariant(plan);
        use_type_invariant(&plan.desired);
    }
    let started = match &state {
        ResourceUpdate::Start => true,
        _ => false,
    };
    if !started {
        if let RecoveryEvent::Failed(e) = event {
            return (ResourceUpdate::Finished, StorageAction::Finish(Err(e)));
        }
    }
    match state {
        ResourceUpdate::Start => (
            ResourceUpdate::AwaitDestination,
            StorageAction::LocateDirectory(plan.desired.directory_id()),
        ),
        ResourceUpdate::AwaitDestination => match event {
            RecoveryEvent::DirectoryLocated(destination) => {
                let directory_id = destination.id();
                let name = plan.desired.name().to_owned();
                (
                    ResourceUpdate::AwaitOccupant { destination },
                    StorageAction::FindByDirectoryAndName { directory_id, name },
                )
            },
            _ => (ResourceUpdate::Finished, StorageAction::Finish(Err(unexpected()))),
        },
        ResourceUpdate::AwaitOccupant { destination } => match event {
            RecoveryEvent::ResourceFound(found) => {
                let occupied = match &found {
                    Some(o) => o.resource().id() != plan.desired.id(),
                    None => false,
                };
                if occupied {
                    return (
                        ResourceUpdate::Finished,
                        StorageAction::Finish(Err(CoreError::Conflict(Conflict::ResourcePathOccupied))),
                    );
                }
                if plan.desired.content().is_some() {
                    let source_key = plan.source_key();
                    let destination_key = visible_key(destination.path(), plan.desired.name());
                    if !source_key.same_as(&destination_key) {
                        return (
                            ResourceUpdate::AwaitRecheck { source_key, destination_key },
                            StorageAction::FindResource(plan.desired.id()),
                        );
                    }
                }
                (
                    ResourceUpdate::AwaitCas,
                    StorageAction::UpdateIfRevision {
                        desired: plan.desired.clone(),
                        expected_revision: plan.expected_revision,
                    },
                )
            },
            _ => (ResourceUpdate::Finished, StorageAction::Finish(Err(unexpected()))),
        },
        ResourceUpdate::AwaitRecheck { source_key, destination_key } => match event {
            RecoveryEvent::ResourceFound(found) => {
                let unchanged = match &found {
                    Some(c) => c.resource().revision() == plan.expected_revision && match c.storage_key() {
                        Ok(k) => k.same_as(&source_key),
                        Err(_) => false,
                    },
                    None => false,
                };
                if unchanged {
                    let probe = source_key.clone();
                    (
                        ResourceUpdate::AwaitSourcePresence { source_key, destination_key },
                        StorageAction::BlobExists(probe),
                    )
                } else {
                    (ResourceUpdate::Finished, StorageAction::Finish(Err(stale(plan.desired.id()))))
                }
            },
            _ => (ResourceUpdate::Finished, StorageAction::Finish(Err(unexpected()))),
        },
        ResourceUpdate::AwaitSourcePresence { source_key, destination_key } => match event {
            RecoveryEvent::BlobPresence(present) => {
                if present {
                    let probe = destination_key.clone();
                    (
                        ResourceUpdate::AwaitDestinationPresence { source_key, destination_key },
                        StorageAction::BlobExists(probe),
                    )
                } else {
                    (
                        ResourceUpdate::Finished,
                        StorageAction::Finish(Err(CoreError::Conflict(Conflict::PhysicalSourceMissing))),
                    )
                }
            },
            _ => (ResourceUpdate::Finished, StorageAction::Finish(Err(unexpected()))),
        },
        ResourceUpdate::AwaitDestinationPresence { source_key, destination_key } => match event {
            RecoveryEvent::BlobPresence(present) => {
                if present {
                    return (
                        ResourceUpdate::Finished,
                        StorageAction::Finish(
                            Err(CoreError::Conflict(Conflict::PhysicalDestinationExists)),
                        ),
                    );
                }
                proof {
                    use_type_invariant(&source_key);
                }
                match ResourceRelocation::new(
                    plan.desired.clone(),
                    plan.expected_revision,
                    source_key,
                    destination_key,
                ) {
                    Ok(relocation) => {
                        let saved = relocation.clone();
                        (
                            ResourceUpdate::AwaitIntentSave { relocation },
                            StorageAction::SaveRelocation(saved),
                        )
                    },
                    Err(e) => (ResourceUpdate::Finished, StorageAction::Finish(Err(e))),
                }
            },
            _ => (ResourceUpdate::Finished, StorageAction::Finish(Err(unexpected()))),
        },
        ResourceUpdate::AwaitIntentSave { relocation } => match event {
            RecoveryEvent::Completed => (
                ResourceUpdate::AwaitRelocation,
                StorageAction::RunRelocation(relocation),
            ),
            _ => (ResourceUpdate::Finished, StorageAction::Finish(Err(unexpected()))),
        },
        ResourceUpdate::AwaitRelocation => match event {
            RecoveryEvent::Completed => (ResourceUpdate::Finished, StorageAction::Finish(Ok(()))),
            _ => (ResourceUpdate::Finished, StorageAction::Finish(Err(unexpected()))),
        },
        ResourceUpdate::AwaitCas => match event {
            RecoveryEvent::CasApplied(applied) => {
                if applied {
                    (ResourceUpdate::Finished, StorageAction::Finish(Ok(())))
                } else {
                    (ResourceUpdate::Finished, StorageAction::Finish(Err(stale(plan.desired.id()))))
                }
            },
            _ => (ResourceUpdate::Finished, StorageAction::Finish(Err(unexpected()))),
        },
        ResourceUpdate::Finished => (ResourceUpdate::Finished, StorageAction::Finish(Err(unexpected()))),
    }
}

/// How a Resource is permanently deleted.
#[derive(Debug)]
pub enum DeletionPlan {
    /// A Resource without content: only the aggregate is deleted.
    DeleteRecord { id: ResourceId, expected_revision: u64 },
    /// A Resource with content: its visible Blob is staged under the deletion key first.
    Stage(ResourceDeletion),
}

/// What deciding the deletion of the located Resource at `expected_revision` answers.
pub open spec fn deletion_plan_result(
    located: LocatedResource,
    expected_revision: u64,
    r: Result<DeletionPlan, CoreError>,
) -> bool {
    let cur = located@.0;
    let staged = slash_join(deletions_dir(), uuid_text(cur.id.0));
    match r {
        Err(e) => (cur.revision != expected_revision && e == stale_resource(cur.id)) || (
        cur.revision == expected_revision && cur.content is Some && located_key(located@)
            == staged && e == CoreError::Invariant(Invariant::DeletionKeysEqual)),
        Ok(DeletionPlan::DeleteRecord { id, expected_revision: x }) => cur.revision
            == expected_revision && cur.content is None && id == cur.id && x
            == expected_revision,
        Ok(DeletionPlan::Stage(d)) => cur.revision == expected_revision && cur.content is Some
            && d@ == (ResourceDeletionView {
            resource_id: cur.id,
            expected_revision,
            source_key: located_key(located@),
            deletion_key: staged,
        }),
    }
}

/// Decide how to delete a located Resource that the caller expects at `expected_revision`.
pub fn plan_deletion(located: &LocatedResource, expected_revision: u64) -> (r: Result<
    DeletionPlan,
    CoreError,
>)
    ensures
        deletion_plan_result(*located, expected_revision, r),
{
    let resource = located.resource();
    proof {
        use_type_invariant(resource);
    }
    if resource.revision() != expected_revision {
        return Err(stale(resource.id()));
    }
    if resource.content().is_none() {
        return Ok(DeletionPlan::DeleteRecord { id: resource.id(), expected_revision });
    }
    let source_key = match located.storage_key() {
        Ok(k) => k,
        Err(e) => return Err(e),
    };
    let staged = match deletion_key(resource.id()) {
        Ok(k) => k,
        Err(e) => return Err(e),
    };
    let deletion = ResourceDeletion::new(resource.id(), expected_revision, source_key, staged)?;
    Ok(DeletionPlan::Stage(deletion))
}

/// Decide the deletion of what a lookup by identity found: a Resource that does not exist is
/// answered with nothing (the deletion reports that nothing was deleted); an existing one is
/// planned as `plan_deletion` plans it.
pub fn plan_deletion_of(found: Option<&LocatedResource>, expected_revision: u64) -> (r: Result<
    Option<DeletionPlan>,
    CoreError,
>)
    ensures
        match found {
            None => r matches Ok(None),
            Some(l) => match r {
                Ok(Some(plan)) => deletion_plan_result(*l, expected_revision, Ok(plan)),
                Ok(None) => false,
                Err(e) => deletion_plan_result(*l, expected_revision, Err(e)),
            },
        },
{
    match found {
        None => Ok(None),
        Some(located) => match plan_deletion(located, expected_revision) {
            Ok(plan) => Ok(Some(plan)),
            Err(e) => Err(e),
        },
    }
}

/// Phases of a permanent deletion through a durable intent.
#[derive(Debug)]
pub enum DurableDeletion {
    Start,
    AwaitRecordDeletion,
    AwaitIntentSave,
    AwaitRecovery,
    Finished,
}

/// A deletion through a durable intent reports success only after the deletion was carried
/// out: in a run from the start that ends in `Finish(Ok(()))`, a Resource without content had its
/// aggregate deletion, guarded by the expected revision, applied; one with content had the
/// planned intent saved and the recovery of exactly that intent run to completion.
pub proof fn lemma_durable_deletion_success_ran_the_intent(
    plan: DeletionPlan,
    states: Seq<DurableDeletion>,
    events: Seq<RecoveryEvent>,
    actions: Seq<StorageAction>,
)
    requires
        states.len() == actions.len() + 1,
        events.len() == actions.len(),
        actions.len() > 0,
        states[0] is Start,
        forall|i: int|
            0 <= i < actions.len() ==> #[trigger] durable_deletion_transition(
                plan,
                states[i],
                events[i],
                (states[i + 1], actions[i]),
            ),
        actions.last() == StorageAction::Finish(Ok(())),
    ensures
        ({
            let n = actions.len() as int;
            match plan {
                DeletionPlan::DeleteRecord { id, expected_revision } => n == 2 && actions[0] == (
                StorageAction::DeleteIfRevision { id, expected_revision }) && events[1]
                    == RecoveryEvent::CasApplied(true),
                DeletionPlan::Stage(d) => n == 3 && (actions[0] matches StorageAction::SaveDeletionIntent(
                    s,
                ) && s@ == d@) && events[1] == RecoveryEvent::Completed && (actions[1] matches StorageAction::RunDeletion(
                    s,
                ) && s@ == d@) && events[2] == RecoveryEvent::Completed,
            }
        }),
{
    let n = actions.len() as int;
    let step = |i: int| durable_deletion_transition(plan, states[i], events[i], (states[i + 1], actions[i]));
    assert(step(n - 1));
    assert(n - 1 != 0);
    assert(step(n - 2));
    if n - 2 != 0 {
        assert(step(n - 3));
        if n - 3 != 0 {
            assert(step(n - 4));
            assert(false);
        }
    }
}

/// What one step of a deletion through a durable intent answers to each event.
pub open spec fn durable_deletion_transition(
    plan: DeletionPlan,
    state: DurableDeletion,
    event: RecoveryEvent,
    r: (DurableDeletion, StorageAction),
) -> bool {
    match (state, event) {
        (DurableDeletion::Start, _) => match plan {
            DeletionPlan::DeleteRecord { id, expected_revision } => r.0 is AwaitRecordDeletion
                && r.1 == (StorageAction::DeleteIfRevision { id, expected_revision }),
            DeletionPlan::Stage(d) => r.0 is AwaitIntentSave && (r.1 matches StorageAction::SaveDeletionIntent(
                s,
            ) && s@ == d@),
        },
        (_, RecoveryEvent::Failed(e)) => r.0 is Finished && r.1 == StorageAction::Finish(
            Err(e),
        ),
        (DurableDeletion::AwaitRecordDeletion, RecoveryEvent::CasApplied(applied)) => r.0 is Finished
            && r.1 == StorageAction::Finish(
            match plan {
                DeletionPlan::DeleteRecord { id, .. } => if applied {
                    Ok(())
                } else {
                    Err(stale_resource(id))
                },
                DeletionPlan::Stage(_) => Err(unexpected_event()),
            },
        ),
        (DurableDeletion::AwaitIntentSave, RecoveryEvent::Completed) => match plan {
            DeletionPlan::Stage(d) => r.0 is AwaitRecovery && (r.1 matches StorageAction::RunDeletion(
                s,
            ) && s@ == d@),
            DeletionPlan::DeleteRecord { .. } => r.0 is Finished && r.1
                == StorageAction::Finish(Err(unexpected_event())),
        },
        (DurableDeletion::AwaitRecovery, RecoveryEvent::Completed) => r.0 is Finished && r.1
            == StorageAction::Finish(Ok(())),
        _ => r.0 is Finished && r.1 == StorageAction::Finish(Err(unexpected_event())),
    }
}

/// One step of a permanent deletion through a durable intent: a Resource without content is
/// deleted if it still has the expected revision; otherwise the intent is saved and the deletion
/// recovery workflow runs it.
pub fn durable_deletion_step(plan: &DeletionPlan, state: DurableDeletion, event: RecoveryEvent) -> (r: (
    DurableDeletion,
    StorageAction,
))
    ensures
        durable_deletion_transition(*plan, state, event, r),
{
    let started = match &state {
        DurableDeletion::Start => true,
        _ => false,
    };
    if !started {
        if let RecoveryEvent::Failed(e) = event {
            return (DurableDeletion::Finished, StorageAction::Finish(Err(e)));
        }
    }
    match state {
        DurableDeletion::Start => match plan {
            DeletionPlan::DeleteRecord { id, expected_revision } => (
                DurableDeletion::AwaitRecordDeletion,
                StorageAction::DeleteIfRevision { id: *id, expected_revision: *expected_revision },
            ),
            DeletionPlan::Stage(d) => (
                DurableDeletion::AwaitIntentSave,
                StorageAction::SaveDeletionIntent(d.clone()),
            ),
        },
        DurableDeletion::AwaitRecordDeletion => match (plan, event) {
            (DeletionPlan::DeleteRecord { id, .. }, RecoveryEvent::CasApplied(applied)) => {
                if applied {
                    (DurableDeletion::Finished, StorageAction::Finish(Ok(())))
                } else {
                    (DurableDeletion::Finished, StorageAction::Finish(Err(stale(*id))))
                }
            },
            _ => (DurableDeletion::Finished, StorageAction::Finish(Err(unexpected()))),
        },
        DurableDeletion::AwaitIntentSave => match (plan, event) {
            (DeletionPlan::Stage(d), RecoveryEvent::Completed) => (
                DurableDeletion::AwaitRecovery,
                StorageAction::RunDeletion(d.clone()),
            ),
            _ => (DurableDeletion::Finished, StorageAction::Finish(Err(unexpected()))),
        },
        DurableDeletion::AwaitRecovery => match event {
            RecoveryEvent::Completed => (DurableDeletion::Finished, StorageAction::Finish(Ok(()))),
            _ => (DurableDeletion::Finished, StorageAction::Finish(Err(unexpected()))),
        },
        DurableDeletion::Finished => (DurableDeletion::Finished, StorageAction::Finish(Err(unexpected()))),
    }
}

/// Phases of a permanent deletion that stages the visible Blob while the aggregate is deleted.
#[derive(Debug)]
pub enum StagedDeletion {
    Start,
    AwaitSourcePresence,
    AwaitStage,
    AwaitRecordDeletion { moved: bool },
    AwaitRestore,
    AwaitStagedRemoval,
    Finished,
}

/// Safety of the staged deletion: the visible Blob is only ever moved to the staging key and
/// back, and the only Blob deleted is the staged one, after the aggregate deletion applied.
pub open spec fn staged_deletion_safe(
    plan: DeletionPlan,
    state: StagedDeletion,
    event: RecoveryEvent,
    a: StorageAction,
) -> bool {
    match a {
        StorageAction::MoveIfAbsent { from, to } => plan matches DeletionPlan::Stage(d) && ((from@
            == d@.source_key && to@ == d@.deletion_key) || (from@ == d@.deletion_key && to@
            == d@.source_key && state == StagedDeletion::AwaitRecordDeletion { moved: true }
            && event == RecoveryEvent::CasApplied(false))),
        StorageAction::DeleteBlob(k) => plan matches DeletionPlan::Stage(d) && k@ == d@.deletion_key
            && state is AwaitRecordDeletion && event == RecoveryEvent::CasApplied(true),
        StorageAction::DeleteIfRevision { .. } => true,
        StorageAction::BlobExists(_) => true,
        StorageAction::Finish(_) => true,
        _ => false,
    }
}

/// The Resource a deletion plan is about.
pub open spec fn plan_resource(plan: DeletionPlan) -> (ResourceId, u64) {
    match plan {
        DeletionPlan::DeleteRecord { id, expected_revision } => (id, expected_revision),
        DeletionPlan::Stage(d) => (d@.resource_id, d@.expected_revision),
    }
}

/// Step `i` of a recorded run of a staged deletion is one that `staged_deletion_step` can take.
pub open spec fn staged_run_step(
    plan: DeletionPlan,
    states: Seq<StagedDeletion>,
    events: Seq<RecoveryEvent>,
    actions: Seq<StorageAction>,
    i: int,
) -> bool {
    &&& staged_deletion_transition(plan, states[i], events[i], (states[i + 1], actions[i]))
    &&& staged_deletion_safe(plan, states[i], events[i], actions[i])
}

/// A permanent deletion reports success only once the Resource and its Blobs are gone: in a
/// staged deletion run from the start that ends in `Finish(Ok(()))`, the store applied the
/// deletion of the aggregate guarded by the expected revision and, for a Resource with content,
/// the visible Blob had been moved to the deletion key (or was seen absent) before that, and the
/// Blob at the deletion key was deleted after it.
pub proof fn lemma_deletion_success_removed_everything(
    plan: DeletionPlan,
    states: Seq<StagedDeletion>,
    events: Seq<RecoveryEvent>,
    actions: Seq<StorageAction>,
)
    requires
        states.len() == actions.len() + 1,
        events.len() == actions.len(),
        actions.len() > 0,
        states[0] is Start,
        forall|i: int| 0 <= i < actions.len() ==> #[trigger] staged_run_step(plan, states, events, actions, i),
        actions.last() == StorageAction::Finish(Ok(())),
    ensures
        ({
            let n = actions.len() as int;
            let delete_record = StorageAction::DeleteIfRevision {
                id: plan_resource(plan).0,
                expected_revision: plan_resource(plan).1,
            };
            match plan {
                DeletionPlan::DeleteRecord { .. } => n >= 2 && actions[n - 2] == delete_record
                    && events[n - 1] == RecoveryEvent::CasApplied(true),
                DeletionPlan::Stage(d) => {
                    &&& n >= 4
                    &&& events[n - 1] == RecoveryEvent::Completed
                    &&& actions[n - 2] matches StorageAction::DeleteBlob(k) && k@ == d@.deletion_key
                    &&& events[n - 2] == RecoveryEvent::CasApplied(true)
                    &&& actions[n - 3] == delete_record
                    &&& (events[n - 3] == RecoveryEvent::BlobPresence(false) && (actions[n
                        - 4] matches StorageAction::BlobExists(k) && k@ == d@.source_key)) || (n >= 5
                        && events[n - 3] == RecoveryEvent::Completed && (actions[n
                        - 4] matches StorageAction::MoveIfAbsent { from, to } && from@
                        == d@.source_key && to@ == d@.deletion_key) && events[n - 4]
                        == RecoveryEvent::BlobPresence(true))
                },
            }
        }),
{
    let n = actions.len() as int;
    assert(staged_run_step(plan, states, events, actions, n - 1));
    assert(n - 1 != 0);
    assert(staged_run_step(plan, states, events, actions, n - 2));
    if plan is Stage {
        assert(n - 2 != 0);
        assert(staged_run_step(plan, states, events, actions, n - 3));
        assert(n - 3 != 0);
        assert(staged_run_step(plan, states, events, actions, n - 4));
        if states[n - 3] is AwaitStage {
            assert(n - 4 != 0);
            assert(staged_run_step(plan, states, events, actions, n - 5));
        }
    }
}

/// What one step of a staged deletion answers to each event.
pub open spec fn staged_deletion_transition(
    plan: DeletionPlan,
    state: StagedDeletion,
    event: RecoveryEvent,
    r: (StagedDeletion, StorageAction),
) -> bool {
    match (state, event) {
        (StagedDeletion::Start, _) => match plan {
            DeletionPlan::DeleteRecord { id, expected_revision } => r.0
                == StagedDeletion::AwaitRecordDeletion { moved: false } && r.1 == (
            StorageAction::DeleteIfRevision { id, expected_revision }),
            DeletionPlan::Stage(d) => r.0 is AwaitSourcePresence && (r.1 matches StorageAction::BlobExists(
                k,
            ) && k@ == d@.source_key),
        },
        (_, RecoveryEvent::Failed(e)) => r.0 is Finished && r.1 == StorageAction::Finish(
            Err(e),
        ),
        (StagedDeletion::AwaitSourcePresence, RecoveryEvent::BlobPresence(present)) => if plan is DeleteRecord {
            r.0 is Finished && r.1 == StorageAction::Finish(Err(unexpected_event()))
        } else if present {
            r.0 is AwaitStage && r.1 is MoveIfAbsent
        } else {
            r.0 == StagedDeletion::AwaitRecordDeletion { moved: false } && r.1 == (
            StorageAction::DeleteIfRevision {
                id: plan_resource(plan).0,
                expected_revision: plan_resource(plan).1,
            })
        },
        (StagedDeletion::AwaitStage, RecoveryEvent::Completed) => r.0
            == StagedDeletion::AwaitRecordDeletion { moved: true } && r.1 == (
        StorageAction::DeleteIfRevision {
            id: plan_resource(plan).0,
            expected_revision: plan_resource(plan).1,
        }),
        (StagedDeletion::AwaitRecordDeletion { moved }, RecoveryEvent::CasApplied(applied)) => if applied {
            match plan {
                DeletionPlan::DeleteRecord { .. } => r.0 is Finished && r.1
                    == StorageAction::Finish(Ok(())),
                DeletionPlan::Stage(d) => r.0 is AwaitStagedRemoval && (r.1 matches StorageAction::DeleteBlob(
                    k,
                ) && k@ == d@.deletion_key),
            }
        } else if moved && plan is Stage {
            r.0 is AwaitRestore && r.1 is MoveIfAbsent
        } else {
            r.0 is Finished && r.1 == StorageAction::Finish(
                Err(stale_resource(plan_resource(plan).0)),
            )
        },
        (StagedDeletion::AwaitRestore, RecoveryEvent::Completed) => r.0 is Finished && r.1
            == StorageAction::Finish(Err(stale_resource(plan_resource(plan).0))),
        (StagedDeletion::AwaitStagedRemoval, RecoveryEvent::Completed) => r.0 is Finished
            && r.1 == StorageAction::Finish(Ok(())),
        _ => r.0 is Finished && r.1 == StorageAction::Finish(Err(unexpected_event())),
    }
}

/// One step of a permanent deletion that moves an existing visible Blob to the staging key,
/// deletes the aggregate if it still has the expected revision, and then removes the staged
/// Blob. A revision conflict moves a staged Blob back to its visible key.
pub fn staged_deletion_step(plan: &DeletionPlan, state: StagedDeletion, event: RecoveryEvent) -> (r: (
    StagedDeletion,
    StorageAction,
))
    ensures
        staged_deletion_safe(*plan, state, event, r.1),
        staged_deletion_transition(*plan, state, event, r),
{
    let started = match &state {
        StagedDeletion::Start => true,
        _ => false,
    };
    if !started {
        if let RecoveryEvent::Failed(e) = event {
            return (StagedDeletion::Finished, StorageAction::Finish(Err(e)));
        }
    }
    let (id, expected_revision) = match plan {
        DeletionPlan::DeleteRecord { id, expected_revision } => (*id, *expected_revision),
        DeletionPlan::Stage(d) => (d.resource_id(), d.expected_revision()),
    };
    match state {
        StagedDeletion::Start => match plan {
            DeletionPlan::DeleteRecord { .. } => (
                StagedDeletion::AwaitRecordDeletion { moved: false },
                StorageAction::DeleteIfRevision { id, expected_revision },
            ),
            DeletionPlan::Stage(d) => (
                StagedDeletion::AwaitSourcePresence,
                StorageAction::BlobExists(d.source_key().clone()),
            ),
        },
        StagedDeletion::AwaitSourcePresence => match (plan, event) {
            (DeletionPlan::Stage(d), RecoveryEvent::BlobPresence(present)) => {
                if present {
                    (
                        StagedDeletion::AwaitStage,
                        StorageAction::MoveIfAbsent {
                            from: d.source_key().clone(),
                            to: d.deletion_key().clone(),
                        },
                    )
                } else {
                    (
                        StagedDeletion::AwaitRecordDeletion { moved: false },
                        StorageAction::DeleteIfRevision { id, expected_revision },
                    )
                }
            },
            _ => (StagedDeletion::Finished, StorageAction::Finish(Err(unexpected()))),
        },
        StagedDeletion::AwaitStage => match event {
            RecoveryEvent::Completed => (
                StagedDeletion::AwaitRecordDeletion { moved: true },
                StorageAction::DeleteIfRevision { id, expected_revision },
            ),
            _ => (StagedDeletion::Finished, StorageAction::Finish(Err(unexpected()))),
        },
        StagedDeletion::AwaitRecordDeletion { moved } => match event {
            RecoveryEvent::CasApplied(applied) => {
                if applied {
                    match plan {
                        DeletionPlan::DeleteRecord { .. } => (
                            StagedDeletion::Finished,
                            StorageAction::Finish(Ok(())),
                        ),
                        DeletionPlan::Stage(d) => (
                            StagedDeletion::AwaitStagedRemoval,
                            StorageAction::DeleteBlob(d.deletion_key().clone()),
                        ),
                    }
                } else {
                    match plan {
                        DeletionPlan::Stage(d) => {
                            if moved {
                                return (
                                    StagedDeletion::AwaitRestore,
                                    StorageAction::MoveIfAbsent {
                                        from: d.deletion_key().clone(),
                                        to: d.source_key().clone(),
                                    },
                                );
                            }
                        },
                        DeletionPlan::DeleteRecord { .. } => {},
                    }
                    (StagedDeletion::Finished, StorageAction::Finish(Err(stale(id))))
                }
            },
            _ => (StagedDeletion::Finished, StorageAction::Finish(Err(unexpected()))),
        },
        StagedDeletion::AwaitRestore => match event {
            RecoveryEvent::Completed => (StagedDeletion::Finished, StorageAction::Finish(Err(stale(id)))),
            _ => (StagedDeletion::Finished, StorageAction::Finish(Err(unexpected()))),
        },
        StagedDeletion::AwaitStagedRemoval => match event {
            RecoveryEvent::Completed => (StagedDeletion::Finished, StorageAction::Finish(Ok(()))),
            _ => (StagedDeletion::Finished, StorageAction::Finish(Err(unexpected()))),
        },
        StagedDeletion::Finished => (StagedDeletion::Finished, StorageAction::Finish(Err(unexpected()))),
    }
}

} // verus!
