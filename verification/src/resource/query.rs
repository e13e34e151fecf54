//! Resource query inputs and projections, and the durable relocation intent.

use crate::domain::ids::{DirectoryId, ResourceId};
use crate::domain::path::{lemma_join_valid, valid_path, StorageKey};
use crate::domain::resource::{DirectoryLocation, Resource, ResourceView};
use crate::error::{CoreError, Invariant};
use crate::resource::path_resolver::{resource_key, resource_key_text};
use vstd::prelude::*;

verus! {

/// The view of an optional string.
pub open spec fn opt_str(o: Option<String>) -> Option<Seq<char>> {
    match o {
        Some(s) => Some(s@),
        None => None,
    }
}

/// Resource read-model filters. Directory identity is always a stable UUID.
#[derive(Debug, Clone)]
pub struct ListResources {
    limit: u32,
    offset: u64,
    q: Option<String>,
    directory_id: DirectoryId,
}

impl ListResources {
    /// The text filter, if any.
    pub closed spec fn spec_q(&self) -> Option<Seq<char>> {
        opt_str(self.q)
    }

    pub closed spec fn spec_limit(&self) -> u32 {
        self.limit
    }

    pub closed spec fn spec_offset(&self) -> u64 {
        self.offset
    }

    pub closed spec fn spec_directory_id(&self) -> DirectoryId {
        self.directory_id
    }

    pub fn new(limit: u32, offset: u64, directory_id: DirectoryId) -> (r: ListResources)
        ensures
            r.spec_limit() == limit,
            r.spec_offset() == offset,
            r.spec_directory_id() == directory_id,
            r.spec_q() is None,
    {
        ListResources { limit, offset, q: None, directory_id }
    }

    pub fn with_q(self, q: &str) -> (r: ListResources)
        ensures
            r.spec_limit() == self.spec_limit(),
            r.spec_offset() == self.spec_offset(),
            r.spec_directory_id() == self.spec_directory_id(),
            r.spec_q() == Some(q@),
    {
        ListResources { q: Some(q.to_owned()), ..self }
    }

    pub fn limit(&self) -> (r: u32)
        ensures
            r == self.spec_limit(),
    {
        self.limit
    }

    pub fn offset(&self) -> (r: u64)
        ensures
            r == self.spec_offset(),
    {
        self.offset
    }

    pub fn q(&self) -> (r: Option<&str>)
        ensures
            match r {
                Some(s) => self.spec_q() == Some(s@),
                None => self.spec_q() is None,
            },
    {
        match &self.q {
            Some(q) => Some(q.as_str()),
            None => None,
        }
    }

    pub fn directory_id(&self) -> (r: DirectoryId)
        ensures
            r == self.spec_directory_id(),
    {
        self.directory_id
    }
}

/// A Resource aggregate paired with its current Directory projection.
#[derive(Debug)]
pub struct LocatedResource {
    resource: Resource,
    directory: DirectoryLocation,
}

impl View for LocatedResource {
    type V = (ResourceView, (DirectoryId, Seq<char>));

    closed spec fn view(&self) -> (ResourceView, (DirectoryId, Seq<char>)) {
        (self.resource@, self.directory@)
    }
}

/// The visible key of a located Resource.
pub open spec fn located_key(v: (ResourceView, (DirectoryId, Seq<char>))) -> Seq<char> {
    resource_key_text(v.1.1, v.0.name)
}

impl LocatedResource {
    /// The Resource lives in the Directory it is located in.
    #[verifier::type_invariant]
    pub open spec fn wf(self) -> bool {
        self@.0.directory_id == self@.1.0
    }

    pub fn new(resource: Resource, directory: DirectoryLocation) -> (r: Result<
        LocatedResource,
        CoreError,
    >)
        ensures
            match r {
                Ok(l) => resource@.directory_id == directory@.0 && l@ == (resource@, directory@),
                Err(e) => resource@.directory_id != directory@.0 && e == CoreError::Invariant(
                    Invariant::ResourceDirectoryMismatch,
                ),
            },
    {
        if resource.directory_id() != directory.id() {
            return Err(CoreError::Invariant(Invariant::ResourceDirectoryMismatch));
        }
        Ok(LocatedResource { resource, directory })
    }

    pub fn resource(&self) -> (r: &Resource)
        ensures
            r@ == self@.0,
    {
        &self.resource
    }

    pub fn directory(&self) -> (r: &DirectoryLocation)
        ensures
            r@ == self@.1,
    {
        &self.directory
    }

    /// The visible Blob key. Resource names are single segments and Directory paths are
    /// canonical, so the key always exists.
    pub fn storage_key(&self) -> (r: Result<StorageKey, CoreError>)
        ensures
            r matches Ok(k) && k@ == located_key(self@),
    {
        let path = self.directory.path();
        proof {
            use_type_invariant(&self.resource);
            use_type_invariant(path);
            if self@.1.1.len() > 0 {
                lemma_join_valid(self@.1.1, self@.0.name);
            }
        }
        resource_key(path, self.resource.name())
    }

    pub fn into_resource(self) -> (r: Resource)
        ensures
            r@ == self@.0,
    {
        self.resource
    }

    pub fn into_parts(self) -> (r: (Resource, DirectoryLocation))
        ensures
            r.0@ == self@.0,
            r.1@ == self@.1,
            r.0@.directory_id == r.1@.0,
    {
        proof {
            use_type_invariant(&self);
        }
        (self.resource, self.directory)
    }
}

impl Clone for LocatedResource {
    fn clone(&self) -> (r: Self)
        ensures
            r@ == self@,
    {
        proof {
            use_type_invariant(self);
        }
        LocatedResource { resource: self.resource.clone(), directory: self.directory.clone() }
    }
}

/// One page of a Resource listing.
#[derive(Debug, Clone)]
pub struct ResourcePage {
    pub items: Vec<LocatedResource>,
    pub total: u64,
    pub limit: u32,
    pub offset: u64,
}

/// Abstract value of a pending relocation.
pub struct ResourceRelocationView {
    pub desired: ResourceView,
    pub expected_revision: u64,
    pub source_key: Seq<char>,
    pub destination_key: Seq<char>,
}

/// Durable intent for a Resource rename or move whose physical and aggregate writes cannot
/// share a transaction. `desired` is the post-relocation aggregate.
#[derive(Debug)]
pub struct ResourceRelocation {
    desired: Resource,
    expected_revision: u64,
    source_key: StorageKey,
    destination_key: StorageKey,
}

impl View for ResourceRelocation {
    type V = ResourceRelocationView;

    closed spec fn view(&self) -> ResourceRelocationView {
        ResourceRelocationView {
            desired: self.desired@,
            expected_revision: self.expected_revision,
            source_key: self.source_key@,
            destination_key: self.destination_key@,
        }
    }
}

impl ResourceRelocation {
    /// A relocation moves between distinct keys and advances the revision.
    #[verifier::type_invariant]
    pub open spec fn wf(self) -> bool {
        self@.source_key != self@.destination_key && self@.desired.revision
            > self@.expected_revision
    }

    pub fn new(
        desired: Resource,
        expected_revision: u64,
        source_key: StorageKey,
        destination_key: StorageKey,
    ) -> (r: Result<ResourceRelocation, CoreError>)
        ensures
            match r {
                Ok(rel) => source_key@ != destination_key@ && desired@.revision > expected_revision
                    && rel@ == (ResourceRelocationView {
                    desired: desired@,
                    expected_revision,
                    source_key: source_key@,
                    destination_key: destination_key@,
                }),
                Err(e) => (source_key@ == destination_key@ && e == CoreError::Invariant(
                    Invariant::RelocationKeysEqual,
                )) || (source_key@ != destination_key@ && desired@.revision <= expected_revision
                    && e == CoreError::Invariant(Invariant::RelocationMustAdvanceRevision)),
            },
    {
        if source_key.same_as(&destination_key) {
            return Err(CoreError::Invariant(Invariant::RelocationKeysEqual));
        }
        if desired.revision() <= expected_revision {
            return Err(CoreError::Invariant(Invariant::RelocationMustAdvanceRevision));
        }
        Ok(ResourceRelocation { desired, expected_revision, source_key, destination_key })
    }

    pub fn resource_id(&self) -> (r: ResourceId)
        ensures
            r == self@.desired.id,
    {
        self.desired.id()
    }

    pub fn desired(&self) -> (r: &Resource)
        ensures
            r@ == self@.desired,
    {
        &self.desired
    }

    pub fn expected_revision(&self) -> (r: u64)
        ensures
            r == self@.expected_revision,
    {
        self.expected_revision
    }

    pub fn source_key(&self) -> (r: &StorageKey)
        ensures
            r@ == self@.source_key,
    {
        &self.source_key
    }

    pub fn destination_key(&self) -> (r: &StorageKey)
        ensures
            r@ == self@.destination_key,
    {
        &self.destination_key
    }
}

impl Clone for ResourceRelocation {
    fn clone(&self) -> (r: Self)
        ensures
            r@ == self@,
    {
        proof {
            use_type_invariant(self);
        }
        ResourceRelocation {
            desired: self.desired.clone(),
            expected_revision: self.expected_revision,
            source_key: self.source_key.clone(),
            destination_key: self.destination_key.clone(),
        }
    }
}

} // verus!
