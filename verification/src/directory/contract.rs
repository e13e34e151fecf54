//! Commands of the Directory service.

use crate::directory::domain::{opt_directory_kind, DirectoryKind};
use crate::domain::ids::DirectoryId;
use crate::resource::query::opt_str;
use vstd::prelude::*;

verus! {

/// A partial update of a Directory aggregate, built against the revision the caller read.
#[derive(Debug)]
pub struct UpdateDirectory {
    pub expected_revision: u64,
    pub name: Option<String>,
    pub parent_id: Option<DirectoryId>,
    pub kind: Option<DirectoryKind>,
}

impl UpdateDirectory {
    /// An update that changes nothing yet.
    pub fn new(expected_revision: u64) -> (r: UpdateDirectory)
        ensures
            r.expected_revision == expected_revision,
            r.name is None,
            r.parent_id is None,
            r.kind is None,
    {
        UpdateDirectory { expected_revision, name: None, parent_id: None, kind: None }
    }

    /// Rename the Directory.
    pub fn with_name(self, name: &str) -> (r: UpdateDirectory)
        ensures
            r.expected_revision == self.expected_revision,
            opt_str(r.name) == Some(name@),
            r.parent_id == self.parent_id,
            opt_directory_kind(r.kind) == opt_directory_kind(self.kind),
    {
        UpdateDirectory { name: Some(name.to_owned()), ..self }
    }

    /// Move the Directory under another parent.
    pub fn with_parent_id(self, parent_id: DirectoryId) -> (r: UpdateDirectory)
        ensures
            r.expected_revision == self.expected_revision,
            opt_str(r.name) == opt_str(self.name),
            r.parent_id == Some(parent_id),
            opt_directory_kind(r.kind) == opt_directory_kind(self.kind),
    {
        UpdateDirectory { parent_id: Some(parent_id), ..self }
    }

    /// Change the Directory kind.
    pub fn with_kind(self, kind: DirectoryKind) -> (r: UpdateDirectory)
        ensures
            r.expected_revision == self.expected_revision,
            opt_str(r.name) == opt_str(self.name),
            r.parent_id == self.parent_id,
            opt_directory_kind(r.kind) == Some(kind@),
    {
        UpdateDirectory { kind: Some(kind), ..self }
    }
}

/// The actions available on a Directory.
#[derive(Debug, Default)]
pub struct DirectoryActions {
    available_actions: Vec<crate::action::definition::DirectoryActionDefinition>,
}

impl DirectoryActions {
    pub fn new(available_actions: Vec<crate::action::definition::DirectoryActionDefinition>) -> (r: DirectoryActions)
        ensures
            r.actions() == available_actions@,
    {
        DirectoryActions { available_actions }
    }

    /// The available actions, in order.
    pub closed spec fn actions(&self) -> Seq<crate::action::definition::DirectoryActionDefinition> {
        self.available_actions@
    }

    pub fn available_actions(&self) -> (r: &[crate::action::definition::DirectoryActionDefinition])
        ensures
            r@ == self.actions(),
    {
        self.available_actions.as_slice()
    }
}

} // verus!
