//! The Resource aggregate, its content reference, and Directory locations.

use crate::domain::checksum::Checksum;
use crate::domain::ids::{DirectoryId, ResourceId};
use crate::domain::path::{valid_segment, DirectoryPath};
use crate::error::{CoreError, FormatField, Invariant};
use crate::text::{chars_of, str_eq};
use vstd::prelude::*;

verus! {

/// Verification state of stored content.
#[derive(Debug, Clone, Copy, PartialEq, Eq, Structural)]
pub enum ContentVerificationStatus {
    Pending,
    Verified,
    Failed,
}

/// The view of an optional string.
pub open spec fn opt_text(o: Option<String>) -> Option<Seq<char>> {
    match o {
        Some(s) => Some(s@),
        None => None,
    }
}

/// The view of an optional checksum.
pub open spec fn opt_checksum(o: Option<Checksum>) -> Option<Seq<char>> {
    match o {
        Some(c) => Some(c@),
        None => None,
    }
}

/// Exact equality of two optional strings.
pub fn opt_str_eq(a: &Option<String>, b: &Option<String>) -> (r: bool)
    ensures
        r == (opt_text(*a) == opt_text(*b)),
{
    match (a, b) {
        (Some(x), Some(y)) => str_eq(x.as_str(), y.as_str()),
        (None, None) => true,
        _ => false,
    }
}

fn opt_str_clone(a: &Option<String>) -> (r: Option<String>)
    ensures
        opt_text(r) == opt_text(*a),
{
    match a {
        Some(x) => Some(x.clone()),
        None => None,
    }
}

fn opt_checksum_clone(a: &Option<Checksum>) -> (r: Option<Checksum>)
    ensures
        opt_checksum(r) == opt_checksum(*a),
{
    match a {
        Some(x) => Some(x.clone()),
        None => None,
    }
}

/// Abstract value of a content reference.
pub struct ResourceContentView {
    pub size: u64,
    pub checksum: Option<Seq<char>>,
    pub mime_type: Option<Seq<char>>,
    pub status: ContentVerificationStatus,
    pub verification_error: Option<Seq<char>>,
    pub modified_at: Option<i64>,
}

/// Reference from a Resource to its stored Blob content.
#[derive(Debug)]
pub struct ResourceContent {
    size: u64,
    checksum: Option<Checksum>,
    mime_type: Option<String>,
    status: ContentVerificationStatus,
    verification_error: Option<String>,
    modified_at: Option<i64>,
}

impl View for ResourceContent {
    type V = ResourceContentView;

    closed spec fn view(&self) -> ResourceContentView {
        ResourceContentView {
            size: self.size,
            checksum: opt_checksum(self.checksum),
            mime_type: opt_text(self.mime_type),
            status: self.status,
            verification_error: opt_text(self.verification_error),
            modified_at: self.modified_at,
        }
    }
}

impl ResourceContent {
    /// Content whose checksum was computed from the stored bytes.
    pub fn verified(
        size: u64,
        checksum: Checksum,
        mime_type: Option<String>,
        modified_at: Option<i64>,
    ) -> (c: ResourceContent)
        ensures
            c@ == (ResourceContentView {
                size,
                checksum: Some(checksum@),
                mime_type: opt_text(mime_type),
                status: ContentVerificationStatus::Verified,
                verification_error: None,
                modified_at,
            }),
    {
        ResourceContent {
            size,
            checksum: Some(checksum),
            mime_type,
            status: ContentVerificationStatus::Verified,
            verification_error: None,
            modified_at,
        }
    }

    /// Content whose checksum is still to be computed.
    pub fn pending(size: u64, mime_type: Option<String>, modified_at: Option<i64>) -> (c:
        ResourceContent)
        ensures
            c@ == (ResourceContentView {
                size,
                checksum: None,
                mime_type: opt_text(mime_type),
                status: ContentVerificationStatus::Pending,
                verification_error: None,
                modified_at,
            }),
    {
        ResourceContent {
            size,
            checksum: None,
            mime_type,
            status: ContentVerificationStatus::Pending,
            verification_error: None,
            modified_at,
        }
    }

    /// Content whose checksum computation failed with `error`.
    pub fn verification_failed(
        size: u64,
        error: String,
        mime_type: Option<String>,
        modified_at: Option<i64>,
    ) -> (c: ResourceContent)
        ensures
            c@ == (ResourceContentView {
                size,
                checksum: None,
                mime_type: opt_text(mime_type),
                status: ContentVerificationStatus::Failed,
                verification_error: Some(error@),
                modified_at,
            }),
    {
        ResourceContent {
            size,
            checksum: None,
            mime_type,
            status: ContentVerificationStatus::Failed,
            verification_error: Some(error),
            modified_at,
        }
    }

    pub fn size(&self) -> (r: u64)
        ensures
            r == self@.size,
    {
        self.size
    }

    pub fn checksum(&self) -> (r: Option<&Checksum>)
        ensures
            match r {
                Some(c) => self@.checksum == Some(c@),
                None => self@.checksum is None,
            },
    {
        self.checksum.as_ref()
    }

    pub fn mime_type(&self) -> (r: Option<&str>)
        ensures
            match r {
                Some(m) => self@.mime_type == Some(m@),
                None => self@.mime_type is None,
            },
    {
        match &self.mime_type {
            Some(m) => Some(m.as_str()),
            None => None,
        }
    }

    pub fn verification_status(&self) -> (r: ContentVerificationStatus)
        ensures
            r == self@.status,
    {
        self.status
    }

    pub fn modified_at(&self) -> (r: Option<i64>)
        ensures
            r == self@.modified_at,
    {
        self.modified_at
    }

    /// Exact equality of two content references.
    pub fn same_as(&self, other: &ResourceContent) -> (r: bool)
        ensures
            r == (self@ == other@),
    {
        let same_checksum = match (&self.checksum, &other.checksum) {
            (Some(a), Some(b)) => a.same_as(b),
            (None, None) => true,
            _ => false,
        };
        self.size == other.size && same_checksum && opt_str_eq(&self.mime_type, &other.mime_type)
            && self.status == other.status && opt_str_eq(
            &self.verification_error,
            &other.verification_error,
        ) && self.modified_at == other.modified_at
    }
}

impl Clone for ResourceContent {
    fn clone(&self) -> (r: Self)
        ensures
            r@ == self@,
    {
        ResourceContent {
            size: self.size,
            checksum: opt_checksum_clone(&self.checksum),
            mime_type: opt_str_clone(&self.mime_type),
            status: self.status,
            verification_error: opt_str_clone(&self.verification_error),
            modified_at: self.modified_at,
        }
    }
}

/// The view of an optional content reference.
pub open spec fn opt_content(o: Option<ResourceContent>) -> Option<ResourceContentView> {
    match o {
        Some(c) => Some(c@),
        None => None,
    }
}

/// Exact equality of an optional content reference with a given one.
pub fn content_is(a: Option<&ResourceContent>, b: &ResourceContent) -> (r: bool)
    ensures
        r == (match a {
            Some(c) => c@ == b@,
            None => false,
        }),
{
    match a {
        Some(c) => c.same_as(b),
        None => false,
    }
}

/// The kind name used when none is given.
pub open spec fn default_kind_text() -> Seq<char> {
    seq!['c', 'o', 'r', 'e', ':', 'f', 'i', 'l', 'e']
}

/// A registered Resource kind name such as `core:file`.
#[derive(Debug)]
pub struct ResourceKind {
    value: String,
}

impl View for ResourceKind {
    type V = Seq<char>;

    closed spec fn view(&self) -> Seq<char> {
        self.value@
    }
}

impl ResourceKind {
    /// Kind names are never empty.
    #[verifier::type_invariant]
    pub open spec fn wf(self) -> bool {
        self@.len() > 0
    }

    /// Validate a kind name.
    pub fn try_new(value: &str) -> (r: Result<ResourceKind, CoreError>)
        ensures
            match r {
                Ok(k) => value@.len() > 0 && k@ == value@,
                Err(e) => value@.len() == 0 && e is Unsupported,
            },
    {
        if value.unicode_len() == 0 {
            return Err(CoreError::Unsupported { subject: crate::error::Subject::Resource });
        }
        ResourceKind { value: value.to_owned() }.ok()
    }

    fn ok(self) -> (r: Result<ResourceKind, CoreError>)
        ensures
            r == Ok::<ResourceKind, CoreError>(self),
    {
        Ok(self)
    }

    /// The fallback kind `core:file`.
    pub fn fallback() -> (k: ResourceKind)
        ensures
            k@ == default_kind_text(),
    {
        let text = "core:file";
        proof {
            reveal_strlit("core:file");
            assert(text@ =~= default_kind_text());
        }
        ResourceKind { value: text.to_owned() }
    }

    pub fn as_str(&self) -> (r: &str)
        ensures
            r@ == self@,
    {
        self.value.as_str()
    }

    pub fn same_as(&self, other: &ResourceKind) -> (r: bool)
        ensures
            r == (self@ == other@),
    {
        str_eq(self.value.as_str(), other.value.as_str())
    }
}

impl Clone for ResourceKind {
    fn clone(&self) -> (r: Self)
        ensures
            r@ == self@,
    {
        proof {
            use_type_invariant(self);
        }
        ResourceKind { value: self.value.clone() }
    }
}

/// Abstract value of a Resource aggregate.
pub struct ResourceView {
    pub id: ResourceId,
    pub name: Seq<char>,
    pub directory_id: DirectoryId,
    pub kind: Seq<char>,
    pub revision: u64,
    pub content: Option<ResourceContentView>,
}

/// A Resource aggregate: a named asset in one Directory with an optional content reference.
/// Every effective change advances its revision by one.
#[derive(Debug)]
pub struct Resource {
    id: ResourceId,
    name: String,
    directory_id: DirectoryId,
    kind: ResourceKind,
    revision: u64,
    content: Option<ResourceContent>,
}

impl View for Resource {
    type V = ResourceView;

    closed spec fn view(&self) -> ResourceView {
        ResourceView {
            id: self.id,
            name: self.name@,
            directory_id: self.directory_id,
            kind: self.kind@,
            revision: self.revision,
            content: opt_content(self.content),
        }
    }
}

impl Resource {
    /// Resource names are single path segments and revisions start at one.
    #[verifier::type_invariant]
    pub open spec fn wf(self) -> bool {
        valid_segment(self@.name) && self@.revision >= 1 && self@.kind.len() > 0
    }

    /// A new Resource without content at revision 1.
    pub fn create(name: &str, directory_id: DirectoryId, kind: ResourceKind) -> (r: Result<
        Resource,
        CoreError,
    >)
        ensures
            match r {
                Ok(res) => valid_segment(name@) && res@.name == name@ && res@.directory_id
                    == directory_id && res@.kind == kind@ && res@.revision == 1
                    && res@.content is None,
                Err(e) => !valid_segment(name@) && e == (CoreError::InvalidFormat {
                    field: FormatField::ResourceName,
                }),
            },
    {
        Self::rehydrate(ResourceId::new(), name, directory_id, kind, 1, None)
    }

    /// Rebuild a persisted Resource.
    pub fn rehydrate(
        id: ResourceId,
        name: &str,
        directory_id: DirectoryId,
        kind: ResourceKind,
        revision: u64,
        content: Option<ResourceContent>,
    ) -> (r: Result<Resource, CoreError>)
        requires
            revision >= 1,
        ensures
            match r {
                Ok(res) => valid_segment(name@) && res@ == (ResourceView {
                    id,
                    name: name@,
                    directory_id,
                    kind: kind@,
                    revision,
                    content: opt_content(content),
                }),
                Err(e) => !valid_segment(name@) && e == (CoreError::InvalidFormat {
                    field: FormatField::ResourceName,
                }),
            },
    {
        proof {
            use_type_invariant(&kind);
        }
        let chars = chars_of(name);
        if !crate::domain::path::is_valid_segment(&chars) {
            return Err(CoreError::InvalidFormat { field: FormatField::ResourceName });
        }
        Ok(Resource { id, name: name.to_owned(), directory_id, kind, revision, content })
    }

    pub fn id(&self) -> (r: ResourceId)
        ensures
            r == self@.id,
    {
        self.id
    }

    pub fn name(&self) -> (r: &str)
        ensures
            r@ == self@.name,
    {
        self.name.as_str()
    }

    pub fn directory_id(&self) -> (r: DirectoryId)
        ensures
            r == self@.directory_id,
    {
        self.directory_id
    }

    pub fn kind(&self) -> (r: &ResourceKind)
        ensures
            r@ == self@.kind,
    {
        &self.kind
    }

    pub fn revision(&self) -> (r: u64)
        ensures
            r == self@.revision,
    {
        self.revision
    }

    pub fn content(&self) -> (r: Option<&ResourceContent>)
        ensures
            match r {
                Some(c) => self@.content == Some(c@),
                None => self@.content is None,
            },
    {
        self.content.as_ref()
    }

    /// Rename the Resource. Renaming to the current name changes nothing.
    pub fn rename(&mut self, name: &str) -> (r: Result<(), CoreError>)
        ensures
            match r {
                Ok(_) => valid_segment(name@) && if name@ == old(self)@.name {
                    final(self)@ == old(self)@
                } else {
                    old(self)@.revision < u64::MAX && final(self)@ == (ResourceView {
                        name: name@,
                        revision: (old(self)@.revision + 1) as u64,
                        ..old(self)@
                    })
                },
                Err(e) => final(self)@ == old(self)@ && ((!valid_segment(name@) && e == (
                CoreError::InvalidFormat { field: FormatField::ResourceName }))
                    || (valid_segment(name@) && name@ != old(self)@.name && old(self)@.revision
                    == u64::MAX && e == CoreError::Invariant(Invariant::RevisionOverflow))),
            },
    {
        proof {
            use_type_invariant(&*self);
        }
        let chars = chars_of(name);
        if !crate::domain::path::is_valid_segment(&chars) {
            return Err(CoreError::InvalidFormat { field: FormatField::ResourceName });
        }
        if str_eq(self.name.as_str(), name) {
            return Ok(());
        }
        if self.revision == u64::MAX {
            return Err(CoreError::Invariant(Invariant::RevisionOverflow));
        }
        self.name = name.to_owned();
        self.revision = self.revision + 1;
        Ok(())
    }

    /// Move the Resource to another Directory. Moving to the current Directory changes nothing.
    pub fn move_to_directory(&mut self, directory_id: DirectoryId) -> (r: Result<(), CoreError>)
        ensures
            match r {
                Ok(_) => if directory_id == old(self)@.directory_id {
                    final(self)@ == old(self)@
                } else {
                    old(self)@.revision < u64::MAX && final(self)@ == (ResourceView {
                        directory_id,
                        revision: (old(self)@.revision + 1) as u64,
                        ..old(self)@
                    })
                },
                Err(e) => final(self)@ == old(self)@ && directory_id != old(self)@.directory_id
                    && old(self)@.revision == u64::MAX && e == CoreError::Invariant(
                    Invariant::RevisionOverflow,
                ),
            },
    {
        proof {
            use_type_invariant(&*self);
        }
        if self.directory_id == directory_id {
            return Ok(());
        }
        if self.revision == u64::MAX {
            return Err(CoreError::Invariant(Invariant::RevisionOverflow));
        }
        self.directory_id = directory_id;
        self.revision = self.revision + 1;
        Ok(())
    }

    /// Change the kind. Changing to the current kind changes nothing.
    pub fn change_kind(&mut self, kind: ResourceKind) -> (r: Result<(), CoreError>)
        ensures
            match r {
                Ok(_) => if kind@ == old(self)@.kind {
                    final(self)@ == old(self)@
                } else {
                    old(self)@.revision < u64::MAX && final(self)@ == (ResourceView {
                        kind: kind@,
                        revision: (old(self)@.revision + 1) as u64,
                        ..old(self)@
                    })
                },
                Err(e) => final(self)@ == old(self)@ && kind@ != old(self)@.kind
                    && old(self)@.revision == u64::MAX && e == CoreError::Invariant(
                    Invariant::RevisionOverflow,
                ),
            },
    {
        proof {
            use_type_invariant(&*self);
            use_type_invariant(&kind);
        }
        if self.kind.same_as(&kind) {
            return Ok(());
        }
        if self.revision == u64::MAX {
            return Err(CoreError::Invariant(Invariant::RevisionOverflow));
        }
        self.kind = kind;
        self.revision = self.revision + 1;
        Ok(())
    }

    /// Attach (or replace) the content reference. This always advances the revision.
    pub fn attach_content(&mut self, content: ResourceContent) -> (r: Result<(), CoreError>)
        ensures
            match r {
                Ok(_) => old(self)@.revision < u64::MAX && final(self)@ == (ResourceView {
                    content: Some(content@),
                    revision: (old(self)@.revision + 1) as u64,
                    ..old(self)@
                }),
                Err(e) => final(self)@ == old(self)@ && old(self)@.revision == u64::MAX && e
                    == CoreError::Invariant(Invariant::RevisionOverflow),
            },
    {
        proof {
            use_type_invariant(&*self);
        }
        if self.revision == u64::MAX {
            return Err(CoreError::Invariant(Invariant::RevisionOverflow));
        }
        self.content = Some(content);
        self.revision = self.revision + 1;
        Ok(())
    }

    /// Exact aggregate equality.
    pub fn same_as(&self, other: &Resource) -> (r: bool)
        ensures
            r == (self@ == other@),
    {
        let same_content = match (&self.content, &other.content) {
            (Some(a), Some(b)) => a.same_as(b),
            (None, None) => true,
            _ => false,
        };
        self.id == other.id && str_eq(self.name.as_str(), other.name.as_str())
            && self.directory_id == other.directory_id && self.kind.same_as(&other.kind)
            && self.revision == other.revision && same_content
    }
}

impl Clone for Resource {
    fn clone(&self) -> (r: Self)
        ensures
            r@ == self@,
    {
        proof {
            use_type_invariant(self);
        }
        let content = match &self.content {
            Some(c) => Some(c.clone()),
            None => None,
        };
        Resource {
            id: self.id,
            name: self.name.clone(),
            directory_id: self.directory_id,
            kind: self.kind.clone(),
            revision: self.revision,
            content,
        }
    }
}

/// Identity and canonical path of a Directory.
#[derive(Debug)]
pub struct DirectoryLocation {
    id: DirectoryId,
    path: DirectoryPath,
}

impl View for DirectoryLocation {
    type V = (DirectoryId, Seq<char>);

    closed spec fn view(&self) -> (DirectoryId, Seq<char>) {
        (self.id, self.path@)
    }
}

impl DirectoryLocation {
    pub fn new(id: DirectoryId, path: DirectoryPath) -> (r: DirectoryLocation)
        ensures
            r@ == (id, path@),
    {
        DirectoryLocation { id, path }
    }

    pub fn id(&self) -> (r: DirectoryId)
        ensures
            r == self@.0,
    {
        self.id
    }

    pub fn path(&self) -> (r: &DirectoryPath)
        ensures
            r@ == self@.1,
    {
        &self.path
    }
}

impl Clone for DirectoryLocation {
    fn clone(&self) -> (r: Self)
        ensures
            r@ == self@,
    {
        DirectoryLocation { id: self.id, path: self.path.clone() }
    }
}

} // verus!
