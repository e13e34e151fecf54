//! The Directory aggregate and the values that carry it between the store, the index and the
//! relocation intents.

use crate::domain::ids::DirectoryId;
use crate::domain::path::{valid_segment, DirectoryPath};
use crate::domain::resource::DirectoryLocation;
use crate::error::{CoreError, FormatField, Invariant, Subject};
use crate::text::{chars_of, str_eq};
use vstd::prelude::*;

verus! {

/// The kind name `core:directory` of plain Directories.
pub open spec fn default_directory_kind() -> Seq<char> {
    seq!['c', 'o', 'r', 'e', ':', 'd', 'i', 'r', 'e', 'c', 't', 'o', 'r', 'y']
}

/// A Directory kind name such as `core:directory`.
#[derive(Debug)]
pub struct DirectoryKind {
    value: String,
}

impl View for DirectoryKind {
    type V = Seq<char>;

    closed spec fn view(&self) -> Seq<char> {
        self.value@
    }
}

impl DirectoryKind {
    /// Kind names are never empty.
    #[verifier::type_invariant]
    pub open spec fn wf(self) -> bool {
        self@.len() > 0
    }

    /// Validate a kind name.
    pub fn try_new(value: &str) -> (r: Result<DirectoryKind, CoreError>)
        ensures
            match r {
                Ok(k) => value@.len() > 0 && k@ == value@,
                Err(e) => value@.len() == 0 && e == (CoreError::Unsupported {
                    subject: Subject::Directory,
                }),
            },
    {
        if value.unicode_len() == 0 {
            return Err(CoreError::Unsupported { subject: Subject::Directory });
        }
        Ok(DirectoryKind { value: value.to_owned() })
    }

    pub fn as_str(&self) -> (r: &str)
        ensures
            r@ == self@,
    {
        self.value.as_str()
    }

    pub fn same_as(&self, other: &DirectoryKind) -> (r: bool)
        ensures
            r == (self@ == other@),
    {
        str_eq(self.value.as_str(), other.value.as_str())
    }

    /// Whether this is the plain `core:directory` kind.
    pub fn is_default(&self) -> (r: bool)
        ensures
            r == (self@ == default_directory_kind()),
    {
        let d = DirectoryKind::default();
        self.same_as(&d)
    }
}

impl Default for DirectoryKind {
    fn default() -> (k: DirectoryKind)
        ensures
            k@ == default_directory_kind(),
    {
        let text = "core:directory";
        proof {
            reveal_strlit("core:directory");
            assert(text@ =~= default_directory_kind());
        }
        DirectoryKind { value: text.to_owned() }
    }
}

impl Clone for DirectoryKind {
    fn clone(&self) -> (r: Self)
        ensures
            r@ == self@,
    {
        proof {
            use_type_invariant(self);
        }
        DirectoryKind { value: self.value.clone() }
    }
}

/// The view of an optional kind.
pub open spec fn opt_directory_kind(o: Option<DirectoryKind>) -> Option<Seq<char>> {
    match o {
        Some(k) => Some(k@),
        None => None,
    }
}

pub struct DirectoryView {
    pub id: DirectoryId,
    pub parent_id: Option<DirectoryId>,
    pub name: Seq<char>,
    pub kind: Seq<char>,
    pub revision: u64,
}

/// A Directory aggregate. Every Directory but the root has a parent and a single-segment name;
/// every effective change advances its revision by one.
#[derive(Debug)]
pub struct Directory {
    id: DirectoryId,
    parent_id: Option<DirectoryId>,
    name: String,
    kind: DirectoryKind,
    revision: u64,
}

impl View for Directory {
    type V = DirectoryView;

    closed spec fn view(&self) -> DirectoryView {
        DirectoryView {
            id: self.id,
            parent_id: self.parent_id,
            name: self.name@,
            kind: self.kind@,
            revision: self.revision,
        }
    }
}

/// The error of a name that is not a single path segment.
pub open spec fn invalid_directory_name() -> CoreError {
    CoreError::InvalidFormat { field: FormatField::DirectoryName }
}

impl Directory {
    #[verifier::type_invariant]
    pub open spec fn wf(self) -> bool {
        &&& self@.revision >= 1
        &&& self@.kind.len() > 0
        &&& self@.parent_id is Some ==> valid_segment(self@.name)
    }

    /// A new child Directory at revision 1 with a fresh identity.
    pub fn new_with_kind(parent_id: DirectoryId, name: &str, kind: DirectoryKind) -> (r: Result<
        Directory,
        CoreError,
    >)
        ensures
            match r {
                Ok(d) => valid_segment(name@) && d@.parent_id == Some(parent_id) && d@.name
                    == name@ && d@.kind == kind@ && d@.revision == 1,
                Err(e) => !valid_segment(name@) && e == invalid_directory_name(),
            },
    {
        Self::rehydrate(DirectoryId::new(), Some(parent_id), name, kind, 1)
    }

    /// Rebuild a persisted Directory.
    pub fn rehydrate(
        id: DirectoryId,
        parent_id: Option<DirectoryId>,
        name: &str,
        kind: DirectoryKind,
        revision: u64,
    ) -> (r: Result<Directory, CoreError>)
        requires
            revision >= 1,
        ensures
            match r {
                Ok(d) => (parent_id is Some ==> valid_segment(name@)) && d@ == (DirectoryView {
                    id,
                    parent_id,
                    name: name@,
                    kind: kind@,
                    revision,
                }),
                Err(e) => parent_id is Some && !valid_segment(name@) && e
                    == invalid_directory_name(),
            },
    {
        proof {
            use_type_invariant(&kind);
        }
        if parent_id.is_some() {
            let chars = chars_of(name);
            if !crate::domain::path::is_valid_segment(&chars) {
                return Err(CoreError::InvalidFormat { field: FormatField::DirectoryName });
            }
        }
        Ok(Directory { id, parent_id, name: name.to_owned(), kind, revision })
    }

    pub fn id(&self) -> (r: DirectoryId)
        ensures
            r == self@.id,
    {
        self.id
    }

    pub fn parent_id(&self) -> (r: Option<DirectoryId>)
        ensures
            r == self@.parent_id,
    {
        self.parent_id
    }

    pub fn name(&self) -> (r: &str)
        ensures
            r@ == self@.name,
    {
        self.name.as_str()
    }

    pub fn kind(&self) -> (r: &DirectoryKind)
        ensures
            r@ == self@.kind,
    {
        &self.kind
    }

    pub fn revision(&self) -> (r: u64)
        ensures
            r == self@.revision,
    {
        self.revision
    }

    /// Rename the Directory. Renaming to the current name changes nothing.
    pub fn rename(&mut self, name: &str) -> (r: Result<(), CoreError>)
        ensures
            match r {
                Ok(_) => valid_segment(name@) && if name@ == old(self)@.name {
                    final(self)@ == old(self)@
                } else {
                    old(self)@.revision < u64::MAX && final(self)@ == (DirectoryView {
                        name: name@,
                        revision: (old(self)@.revision + 1) as u64,
                        ..old(self)@
                    })
                },
                Err(e) => final(self)@ == old(self)@ && ((!valid_segment(name@) && e
                    == invalid_directory_name()) || (valid_segment(name@) && name@
                    != old(self)@.name && old(self)@.revision == u64::MAX && e
                    == CoreError::Invariant(Invariant::RevisionOverflow))),
            },
    {
        proof {
            use_type_invariant(&*self);
        }
        let chars = chars_of(name);
        if !crate::domain::path::is_valid_segment(&chars) {
            return Err(CoreError::InvalidFormat { field: FormatField::DirectoryName });
        }
        if str_eq(self.name.as_str(), name) {
            return Ok(());
        }
        if self.revision == u64::MAX {
            return Err(CoreError::Invariant(Invariant::RevisionOverflow));
        }
        self.name = name.to_owned();
        self.revision = self.revision + 1;
        Ok(())
    }

    /// Move the Directory under another parent. Moving to the current parent changes nothing.
    /// The root Directory has no parent and cannot be moved.
    pub fn move_to(&mut self, parent_id: DirectoryId) -> (r: Result<(), CoreError>)
        ensures
            match r {
                Ok(_) => old(self)@.parent_id is Some && if old(self)@.parent_id == Some(
                    parent_id,
                ) {
                    final(self)@ == old(self)@
                } else {
                    old(self)@.revision < u64::MAX && final(self)@ == (DirectoryView {
                        parent_id: Some(parent_id),
                        revision: (old(self)@.revision + 1) as u64,
                        ..old(self)@
                    })
                },
                Err(e) => final(self)@ == old(self)@ && ((old(self)@.parent_id is None && e
                    == CoreError::Conflict(crate::error::Conflict::RootDirectoryCannotBeUpdated))
                    || (old(self)@.parent_id is Some && old(self)@.parent_id != Some(parent_id)
                    && old(self)@.revision == u64::MAX && e == CoreError::Invariant(
                    Invariant::RevisionOverflow,
                ))),
            },
    {
        proof {
            use_type_invariant(&*self);
        }
        match self.parent_id {
            None => {
                return Err(
                    CoreError::Conflict(crate::error::Conflict::RootDirectoryCannotBeUpdated),
                );
            },
            Some(current) => {
                if current == parent_id {
                    return Ok(());
                }
            },
        }
        if self.revision == u64::MAX {
            return Err(CoreError::Invariant(Invariant::RevisionOverflow));
        }
        self.parent_id = Some(parent_id);
        self.revision = self.revision + 1;
        Ok(())
    }

    /// Change the kind. Changing to the current kind changes nothing.
    pub fn change_kind(&mut self, kind: DirectoryKind) -> (r: Result<(), CoreError>)
        ensures
            match r {
                Ok(_) => if kind@ == old(self)@.kind {
                    final(self)@ == old(self)@
                } else {
                    old(self)@.revision < u64::MAX && final(self)@ == (DirectoryView {
                        kind: kind@,
                        revision: (old(self)@.revision + 1) as u64,
                        ..old(self)@
                    })
                },
                Err(e) => final(self)@ == old(self)@ && kind@ != old(self)@.kind
                    && old(self)@.revision == u64::MAX && e == CoreError::Invariant(
                    Invariant::RevisionOverflow,
                ),
            },
    {
        proof {
            use_type_invariant(&*self);
            use_type_invariant(&kind);
        }
        if self.kind.same_as(&kind) {
            return Ok(());
        }
        if self.revision == u64::MAX {
            return Err(CoreError::Invariant(Invariant::RevisionOverflow));
        }
        self.kind = kind;
        self.revision = self.revision + 1;
        Ok(())
    }

    /// Exact aggregate equality.
    pub fn same_as(&self, other: &Directory) -> (r: bool)
        ensures
            r == (self@ == other@),
    {
        self.id == other.id && self.parent_id == other.parent_id && str_eq(
            self.name.as_str(),
            other.name.as_str(),
        ) && self.kind.same_as(&other.kind) && self.revision == other.revision
    }
}

impl Clone for Directory {
    fn clone(&self) -> (r: Self)
        ensures
            r@ == self@,
    {
        proof {
            use_type_invariant(self);
        }
        Directory {
            id: self.id,
            parent_id: self.parent_id,
            name: self.name.clone(),
            kind: self.kind.clone(),
            revision: self.revision,
        }
    }
}

/// A Directory aggregate with its canonical location.
#[derive(Debug)]
pub struct LocatedDirectory {
    directory: Directory,
    location: DirectoryLocation,
}

impl View for LocatedDirectory {
    type V = (DirectoryView, (DirectoryId, Seq<char>));

    closed spec fn view(&self) -> (DirectoryView, (DirectoryId, Seq<char>)) {
        (self.directory@, self.location@)
    }
}

impl LocatedDirectory {
    /// The location is the Directory's own.
    #[verifier::type_invariant]
    pub open spec fn wf(self) -> bool {
        self@.0.id == self@.1.0
    }

    pub fn new(directory: Directory, location: DirectoryLocation) -> (r: Result<
        LocatedDirectory,
        CoreError,
    >)
        ensures
            match r {
                Ok(l) => directory@.id == location@.0 && l@ == (directory@, location@),
                Err(e) => directory@.id != location@.0 && e == CoreError::Invariant(
                    Invariant::ResourceDirectoryMismatch,
                ),
            },
    {
        if directory.id() != location.id() {
            return Err(CoreError::Invariant(Invariant::ResourceDirectoryMismatch));
        }
        Ok(LocatedDirectory { directory, location })
    }

    pub fn id(&self) -> (r: DirectoryId)
        ensures
            r == self@.0.id,
    {
        self.directory.id()
    }

    pub fn directory(&self) -> (r: &Directory)
        ensures
            r@ == self@.0,
    {
        &self.directory
    }

    pub fn location(&self) -> (r: &DirectoryLocation)
        ensures
            r@ == self@.1,
    {
        &self.location
    }

    pub fn path(&self) -> (r: &DirectoryPath)
        ensures
            r@ == self@.1.1,
    {
        self.location.path()
    }

    pub fn into_parts(self) -> (r: (Directory, DirectoryLocation))
        ensures
            r.0@ == self@.0,
            r.1@ == self@.1,
            r.0@.id == r.1@.0,
    {
        proof {
            use_type_invariant(&self);
        }
        (self.directory, self.location)
    }

    pub fn into_directory(self) -> (r: Directory)
        ensures
            r@ == self@.0,
    {
        self.directory
    }
}

impl Clone for LocatedDirectory {
    fn clone(&self) -> (r: Self)
        ensures
            r@ == self@,
    {
        proof {
            use_type_invariant(self);
        }
        LocatedDirectory { directory: self.directory.clone(), location: self.location.clone() }
    }
}

/// A revision-guarded write of one Directory: the desired aggregate and the revision the stored
/// one must still have.
#[derive(Debug)]
pub struct DirectoryRevisionUpdate {
    directory: Directory,
    expected_revision: u64,
}

impl View for DirectoryRevisionUpdate {
    type V = (DirectoryView, u64);

    closed spec fn view(&self) -> (DirectoryView, u64) {
        (self.directory@, self.expected_revision)
    }
}

impl DirectoryRevisionUpdate {
    /// The desired aggregate advances the revision.
    #[verifier::type_invariant]
    pub open spec fn wf(self) -> bool {
        self@.0.revision > self@.1
    }

    pub fn new(directory: Directory, expected_revision: u64) -> (r: Result<
        DirectoryRevisionUpdate,
        CoreError,
    >)
        ensures
            match r {
                Ok(u) => directory@.revision > expected_revision && u@ == (
                directory@,
                expected_revision,
            ),
                Err(e) => directory@.revision <= expected_revision && e == CoreError::Invariant(
                    Invariant::RelocationMustAdvanceRevision,
                ),
            },
    {
        if directory.revision() <= expected_revision {
            return Err(CoreError::Invariant(Invariant::RelocationMustAdvanceRevision));
        }
        Ok(DirectoryRevisionUpdate { directory, expected_revision })
    }

    pub fn directory(&self) -> (r: &Directory)
        ensures
            r@ == self@.0,
    {
        &self.directory
    }

    pub fn expected_revision(&self) -> (r: u64)
        ensures
            r == self@.1,
    {
        self.expected_revision
    }
}

impl Clone for DirectoryRevisionUpdate {
    fn clone(&self) -> (r: Self)
        ensures
            r@ == self@,
    {
        proof {
            use_type_invariant(self);
        }
        DirectoryRevisionUpdate {
            directory: self.directory.clone(),
            expected_revision: self.expected_revision,
        }
    }
}

/// The views of a batch of revision-guarded writes.
pub open spec fn updates_view(v: Seq<DirectoryRevisionUpdate>) -> Seq<(DirectoryView, u64)> {
    v.map_values(|u: DirectoryRevisionUpdate| u@)
}

pub struct DirectoryRelocationView {
    pub directory_id: DirectoryId,
    pub source: Seq<char>,
    pub destination: Seq<char>,
    pub updates: Seq<(DirectoryView, u64)>,
}

/// Durable intent for moving a Directory subtree on disk together with the batch of aggregate
/// writes that records the move.
#[derive(Debug)]
pub struct DirectoryRelocation {
    directory_id: DirectoryId,
    source: DirectoryPath,
    destination: DirectoryPath,
    updates: Vec<DirectoryRevisionUpdate>,
}

impl View for DirectoryRelocation {
    type V = DirectoryRelocationView;

    closed spec fn view(&self) -> DirectoryRelocationView {
        DirectoryRelocationView {
            directory_id: self.directory_id,
            source: self.source@,
            destination: self.destination@,
            updates: updates_view(self.updates@),
        }
    }
}

impl DirectoryRelocation {
    /// A relocation moves between distinct paths.
    #[verifier::type_invariant]
    pub open spec fn wf(self) -> bool {
        self@.source != self@.destination
    }

    pub fn new(
        directory_id: DirectoryId,
        source: DirectoryPath,
        destination: DirectoryPath,
        updates: Vec<DirectoryRevisionUpdate>,
    ) -> (r: Result<DirectoryRelocation, CoreError>)
        ensures
            match r {
                Ok(rel) => source@ != destination@ && rel@ == (DirectoryRelocationView {
                    directory_id,
                    source: source@,
                    destination: destination@,
                    updates: updates_view(updates@),
                }),
                Err(e) => source@ == destination@ && e == CoreError::Invariant(
                    Invariant::RelocationKeysEqual,
                ),
            },
    {
        if source.same_as(&destination) {
            return Err(CoreError::Invariant(Invariant::RelocationKeysEqual));
        }
        Ok(DirectoryRelocation { directory_id, source, destination, updates })
    }

    pub fn directory_id(&self) -> (r: DirectoryId)
        ensures
            r == self@.directory_id,
    {
        self.directory_id
    }

    pub fn source(&self) -> (r: &DirectoryPath)
        ensures
            r@ == self@.source,
    {
        &self.source
    }

    pub fn destination(&self) -> (r: &DirectoryPath)
        ensures
            r@ == self@.destination,
    {
        &self.destination
    }

    pub fn updates(&self) -> (r: &Vec<DirectoryRevisionUpdate>)
        ensures
            updates_view(r@) == self@.updates,
    {
        &self.updates
    }
}

impl Clone for DirectoryRelocation {
    fn clone(&self) -> (r: Self)
        ensures
            r@ == self@,
    {
        proof {
            use_type_invariant(self);
        }
        let mut updates: Vec<DirectoryRevisionUpdate> = Vec::new();
        let mut i: usize = 0;
        while i < self.updates.len()
            invariant
                i <= self.updates@.len(),
                updates@.len() == i,
                forall|j: int| 0 <= j < i ==> #[trigger] updates@[j]@ == self.updates@[j]@,
            decreases self.updates@.len() - i,
        {
            updates.push(self.updates[i].clone());
            i = i + 1;
        }
        proof {
            assert(updates_view(updates@) =~= updates_view(self.updates@));
        }
        DirectoryRelocation {
            directory_id: self.directory_id,
            source: self.source.clone(),
            destination: self.destination.clone(),
            updates,
        }
    }
}

} // verus!
