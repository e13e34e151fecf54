//! Definitions of the actions plugins offer on Resources and Directories.

use vstd::prelude::*;

verus! {

/// Whether an action only reads or may also change what it runs on.
#[derive(Debug, Clone, Copy, PartialEq, Eq, Structural)]
pub enum ActionAccess {
    Read,
    Write,
}

/// How an action receives the Resource's content.
#[derive(Debug, Clone, Copy, PartialEq, Eq, Structural)]
pub enum ResourceActionContentDelivery {
    /// Inline when small enough, by reference otherwise.
    Auto,
    /// Always inline.
    Inline,
    /// Always by reference.
    Reference,
}

/// What an action needs from the Resource.
#[derive(Debug, Clone, Copy, PartialEq, Eq, Structural)]
pub struct ResourceActionRequirements {
    pub content: bool,
    pub content_delivery: ResourceActionContentDelivery,
}

impl ResourceActionRequirements {
    /// No content is needed.
    pub fn none() -> (r: ResourceActionRequirements)
        ensures
            !r.content,
            r.content_delivery == ResourceActionContentDelivery::Auto,
    {
        ResourceActionRequirements {
            content: false,
            content_delivery: ResourceActionContentDelivery::Auto,
        }
    }
}

/// The views and effects an action may return.
#[derive(Debug, Clone)]
pub struct ActionOutputContract {
    pub views: Vec<String>,
    pub effects: Vec<String>,
}

/// The contract lists `name` among `names`.
pub open spec fn lists(names: Seq<String>, name: Seq<char>) -> bool {
    exists|i: int| 0 <= i < names.len() && #[trigger] names[i]@ == name
}

/// Whether `names` lists `name`.
pub fn contains_name(names: &Vec<String>, name: &str) -> (r: bool)
    ensures
        r == lists(names@, name@),
{
    let mut i: usize = 0;
    while i < names.len()
        invariant
            i <= names@.len(),
            forall|j: int| 0 <= j < i ==> #[trigger] names@[j]@ != name@,
        decreases names@.len() - i,
    {
        if crate::text::str_eq(names[i].as_str(), name) {
            return true;
        }
        i = i + 1;
    }
    false
}

impl ActionOutputContract {
    /// A contract with no views and no effects.
    pub fn empty() -> (r: ActionOutputContract)
        ensures
            r.views@.len() == 0,
            r.effects@.len() == 0,
    {
        ActionOutputContract { views: Vec::new(), effects: Vec::new() }
    }
}

/// An action a plugin offers on Resources.
#[derive(Debug)]
pub struct ResourceActionDefinition {
    id: String,
    label: String,
    access: ActionAccess,
    requirements: ResourceActionRequirements,
    output: ActionOutputContract,
    provides: Option<String>,
    kinds: Vec<String>,
}

impl ResourceActionDefinition {
    pub closed spec fn spec_id(&self) -> Seq<char> {
        self.id@
    }

    pub closed spec fn spec_access(&self) -> ActionAccess {
        self.access
    }

    pub closed spec fn spec_requirements(&self) -> ResourceActionRequirements {
        self.requirements
    }

    pub closed spec fn spec_views(&self) -> Seq<String> {
        self.output.views@
    }

    pub closed spec fn spec_effects(&self) -> Seq<String> {
        self.output.effects@
    }

    pub closed spec fn spec_label(&self) -> Seq<char> {
        self.label@
    }

    pub closed spec fn spec_kinds(&self) -> Seq<String> {
        self.kinds@
    }

    pub closed spec fn spec_provides(&self) -> Option<Seq<char>> {
        match self.provides {
            Some(p) => Some(p@),
            None => None,
        }
    }

    /// A read-only action that needs no content and declares no output yet.
    pub fn new_static(id: &str, label: &str) -> (r: ResourceActionDefinition)
        ensures
            r.spec_id() == id@,
            r.spec_access() == ActionAccess::Read,
            !r.spec_requirements().content,
            r.spec_requirements().content_delivery == ResourceActionContentDelivery::Auto,
            r.spec_views().len() == 0,
            r.spec_effects().len() == 0,
            r.spec_provides() is None,
            r.spec_label() == label@,
            r.spec_kinds().len() == 0,
    {
        ResourceActionDefinition {
            id: id.to_owned(),
            label: label.to_owned(),
            access: ActionAccess::Read,
            requirements: ResourceActionRequirements::none(),
            output: ActionOutputContract::empty(),
            provides: None,
            kinds: Vec::new(),
        }
    }

    pub fn with_requirements(self, requirements: ResourceActionRequirements) -> (r:
        ResourceActionDefinition)
        ensures
            r.spec_requirements() == requirements,
            r.spec_id() == self.spec_id(),
            r.spec_access() == self.spec_access(),
            r.spec_views() == self.spec_views(),
            r.spec_effects() == self.spec_effects(),
            r.spec_provides() == self.spec_provides(),
            r.spec_label() == self.spec_label(),
            r.spec_kinds() == self.spec_kinds(),
    {
        ResourceActionDefinition { requirements, ..self }
    }

    pub fn with_access(self, access: ActionAccess) -> (r: ResourceActionDefinition)
        ensures
            r.spec_access() == access,
            r.spec_id() == self.spec_id(),
            r.spec_requirements() == self.spec_requirements(),
            r.spec_views() == self.spec_views(),
            r.spec_effects() == self.spec_effects(),
            r.spec_provides() == self.spec_provides(),
            r.spec_label() == self.spec_label(),
            r.spec_kinds() == self.spec_kinds(),
    {
        ResourceActionDefinition { access, ..self }
    }

    pub fn with_output(self, output: ActionOutputContract) -> (r: ResourceActionDefinition)
        ensures
            r.spec_views() == output.views@,
            r.spec_effects() == output.effects@,
            r.spec_id() == self.spec_id(),
            r.spec_access() == self.spec_access(),
            r.spec_requirements() == self.spec_requirements(),
            r.spec_provides() == self.spec_provides(),
            r.spec_label() == self.spec_label(),
            r.spec_kinds() == self.spec_kinds(),
    {
        ResourceActionDefinition { output, ..self }
    }

    pub fn with_static_provides(self, provides: Option<&str>) -> (r: ResourceActionDefinition)
        ensures
            r.spec_provides() == (match provides {
                Some(p) => Some(p@),
                None => None::<Seq<char>>,
            }),
            r.spec_id() == self.spec_id(),
            r.spec_access() == self.spec_access(),
            r.spec_requirements() == self.spec_requirements(),
            r.spec_views() == self.spec_views(),
            r.spec_effects() == self.spec_effects(),
            r.spec_label() == self.spec_label(),
            r.spec_kinds() == self.spec_kinds(),
    {
        let provides = match provides {
            Some(p) => Some(p.to_owned()),
            None => None,
        };
        ResourceActionDefinition { provides, ..self }
    }

    pub fn with_kinds(self, kinds: Vec<String>) -> (r: ResourceActionDefinition)
        ensures
            r.spec_id() == self.spec_id(),
            r.spec_access() == self.spec_access(),
            r.spec_requirements() == self.spec_requirements(),
            r.spec_views() == self.spec_views(),
            r.spec_effects() == self.spec_effects(),
            r.spec_provides() == self.spec_provides(),
            r.spec_label() == self.spec_label(),
            r.spec_kinds() == kinds@,
    {
        ResourceActionDefinition { kinds, ..self }
    }

    pub fn id(&self) -> (r: &str)
        ensures
            r@ == self.spec_id(),
    {
        self.id.as_str()
    }

    pub fn label(&self) -> (r: &str)
        ensures
            r@ == self.spec_label(),
    {
        self.label.as_str()
    }

    pub fn access(&self) -> (r: ActionAccess)
        ensures
            r == self.spec_access(),
    {
        self.access
    }

    pub fn requirements(&self) -> (r: ResourceActionRequirements)
        ensures
            r == self.spec_requirements(),
    {
        self.requirements
    }

    pub fn views(&self) -> (r: &Vec<String>)
        ensures
            r@ == self.spec_views(),
    {
        &self.output.views
    }

    pub fn effects(&self) -> (r: &Vec<String>)
        ensures
            r@ == self.spec_effects(),
    {
        &self.output.effects
    }

    pub fn provides(&self) -> (r: Option<&str>)
        ensures
            match r {
                Some(p) => self.spec_provides() == Some(p@),
                None => self.spec_provides() is None,
            },
    {
        match &self.provides {
            Some(p) => Some(p.as_str()),
            None => None,
        }
    }

    pub fn kinds(&self) -> (r: &Vec<String>)
        ensures
            r@ == self.spec_kinds(),
    {
        &self.kinds
    }
}

/// An action a plugin offers on Directories.
#[derive(Debug)]
pub struct DirectoryActionDefinition {
    id: String,
    label: String,
    access: ActionAccess,
    output: ActionOutputContract,
    kinds: Vec<String>,
}

impl DirectoryActionDefinition {
    pub closed spec fn spec_id(&self) -> Seq<char> {
        self.id@
    }

    pub closed spec fn spec_access(&self) -> ActionAccess {
        self.access
    }

    pub closed spec fn spec_views(&self) -> Seq<String> {
        self.output.views@
    }

    pub closed spec fn spec_effects(&self) -> Seq<String> {
        self.output.effects@
    }

    pub closed spec fn spec_label(&self) -> Seq<char> {
        self.label@
    }

    pub closed spec fn spec_kinds(&self) -> Seq<String> {
        self.kinds@
    }

    /// A read-only action that declares no output yet.
    pub fn new_static(id: &str, label: &str) -> (r: DirectoryActionDefinition)
        ensures
            r.spec_id() == id@,
            r.spec_access() == ActionAccess::Read,
            r.spec_views().len() == 0,
            r.spec_effects().len() == 0,
            r.spec_label() == label@,
            r.spec_kinds().len() == 0,
    {
        DirectoryActionDefinition {
            id: id.to_owned(),
            label: label.to_owned(),
            access: ActionAccess::Read,
            output: ActionOutputContract::empty(),
            kinds: Vec::new(),
        }
    }

    pub fn with_access(self, access: ActionAccess) -> (r: DirectoryActionDefinition)
        ensures
            r.spec_access() == access,
            r.spec_id() == self.spec_id(),
            r.spec_views() == self.spec_views(),
            r.spec_effects() == self.spec_effects(),
            r.spec_label() == self.spec_label(),
            r.spec_kinds() == self.spec_kinds(),
    {
        DirectoryActionDefinition { access, ..self }
    }

    pub fn with_output(self, output: ActionOutputContract) -> (r: DirectoryActionDefinition)
        ensures
            r.spec_views() == output.views@,
            r.spec_effects() == output.effects@,
            r.spec_id() == self.spec_id(),
            r.spec_access() == self.spec_access(),
            r.spec_label() == self.spec_label(),
            r.spec_kinds() == self.spec_kinds(),
    {
        DirectoryActionDefinition { output, ..self }
    }

    pub fn with_kinds(self, kinds: Vec<String>) -> (r: DirectoryActionDefinition)
        ensures
            r.spec_id() == self.spec_id(),
            r.spec_access() == self.spec_access(),
            r.spec_views() == self.spec_views(),
            r.spec_effects() == self.spec_effects(),
            r.spec_label() == self.spec_label(),
            r.spec_kinds() == kinds@,
    {
        DirectoryActionDefinition { kinds, ..self }
    }

    pub fn id(&self) -> (r: &str)
        ensures
            r@ == self.spec_id(),
    {
        self.id.as_str()
    }

    pub fn label(&self) -> (r: &str)
        ensures
            r@ == self.spec_label(),
    {
        self.label.as_str()
    }

    pub fn access(&self) -> (r: ActionAccess)
        ensures
            r == self.spec_access(),
    {
        self.access
    }

    pub fn views(&self) -> (r: &Vec<String>)
        ensures
            r@ == self.spec_views(),
    {
        &self.output.views
    }

    pub fn effects(&self) -> (r: &Vec<String>)
        ensures
            r@ == self.spec_effects(),
    {
        &self.output.effects
    }

    pub fn kinds(&self) -> (r: &Vec<String>)
        ensures
            r@ == self.spec_kinds(),
    {
        &self.kinds
    }
}

} // verus!
