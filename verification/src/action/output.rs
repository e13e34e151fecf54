//! The outputs plugins return from actions.

use crate::domain::ids::{DirectoryId, ResourceId};
use vstd::prelude::*;

verus! {

/// How a media view carries its bytes.
#[derive(Debug, Clone, Copy, PartialEq, Eq, Structural)]
pub enum MediaEncoding {
    /// The bytes themselves, base64-encoded.
    Base64,
    /// A reference to the Resource's own stored content.
    Url,
}

/// The payload of a media view: a MIME type, an optional title, and the data in its encoding.
#[derive(Debug)]
pub struct MediaView {
    pub mime_type: String,
    pub title: Option<String>,
    pub encoding: MediaEncoding,
    pub data: String,
}

/// A view an action returns, tagged with its kind; a media view also carries its payload.
#[derive(Debug)]
pub struct ActionView {
    pub kind: String,
    pub media: Option<MediaView>,
}

/// An effect a Resource action asks the host to apply.
#[derive(Debug)]
pub enum ResourceActionEffect {
    /// Replace the content by base64-encoded bytes.
    ReplaceContent { data: String, mime_type: Option<String> },
    /// Delete the Resource.
    Delete,
}

/// The effect kind name of `replace_content`.
pub open spec fn replace_content_name() -> Seq<char> {
    seq!['r', 'e', 'p', 'l', 'a', 'c', 'e', '_', 'c', 'o', 'n', 't', 'e', 'n', 't']
}

/// The effect kind name of `delete`.
pub open spec fn delete_name() -> Seq<char> {
    seq!['d', 'e', 'l', 'e', 't', 'e']
}

/// The effect kind name of `create_child`.
pub open spec fn create_child_name() -> Seq<char> {
    seq!['c', 'r', 'e', 'a', 't', 'e', '_', 'c', 'h', 'i', 'l', 'd']
}

/// The effect kind name of `create_tree`.
pub open spec fn create_tree_name() -> Seq<char> {
    seq!['c', 'r', 'e', 'a', 't', 'e', '_', 't', 'r', 'e', 'e']
}

/// The effect kind name of `update`.
pub open spec fn update_name() -> Seq<char> {
    seq!['u', 'p', 'd', 'a', 't', 'e']
}

/// The kind name of a Resource effect.
pub open spec fn resource_effect_kind(e: ResourceActionEffect) -> Seq<char> {
    match e {
        ResourceActionEffect::ReplaceContent { .. } => replace_content_name(),
        ResourceActionEffect::Delete => delete_name(),
    }
}

impl ResourceActionEffect {
    /// The effect's kind name.
    pub fn kind(&self) -> (r: &'static str)
        ensures
            r@ == resource_effect_kind(*self),
    {
        match self {
            ResourceActionEffect::ReplaceContent { .. } => {
                let k = "replace_content";
                proof {
                    reveal_strlit("replace_content");
                    assert(k@ =~= replace_content_name());
                }
                k
            },
            ResourceActionEffect::Delete => {
                let k = "delete";
                proof {
                    reveal_strlit("delete");
                    assert(k@ =~= delete_name());
                }
                k
            },
        }
    }
}

/// What a plugin returns from a Resource action.
#[derive(Debug)]
pub struct PluginResourceActionOutput {
    pub view: Option<ActionView>,
    pub effects: Vec<ResourceActionEffect>,
}

/// A Resource action's output together with the invocation it answers.
#[derive(Debug)]
pub struct ResourceActionOutput {
    pub resource_id: ResourceId,
    pub action: String,
    pub output: PluginResourceActionOutput,
}

/// An effect a Directory action asks the host to apply.
#[derive(Debug)]
pub enum DirectoryActionEffect {
    /// Create a child Directory.
    CreateChild { name: String, kind: Option<String> },
    /// Update the Directory: rename it, move it under the Directory with the given UUID text,
    /// or change its kind.
    Update { name: Option<String>, parent_id: Option<String>, kind: Option<String> },
    /// Create a tree of Directories and Resources; only the workflow service applies it.
    CreateTree,
    /// Delete the Directory if it is empty.
    Delete,
}

/// The kind name of a Directory effect.
pub open spec fn directory_effect_kind(e: DirectoryActionEffect) -> Seq<char> {
    match e {
        DirectoryActionEffect::CreateChild { .. } => create_child_name(),
        DirectoryActionEffect::Update { .. } => update_name(),
        DirectoryActionEffect::CreateTree => create_tree_name(),
        DirectoryActionEffect::Delete => delete_name(),
    }
}

impl DirectoryActionEffect {
    /// The effect's kind name.
    pub fn kind(&self) -> (r: &'static str)
        ensures
            r@ == directory_effect_kind(*self),
    {
        match self {
            DirectoryActionEffect::CreateChild { .. } => {
                let k = "create_child";
                proof {
                    reveal_strlit("create_child");
                    assert(k@ =~= create_child_name());
                }
                k
            },
            DirectoryActionEffect::Update { .. } => {
                let k = "update";
                proof {
                    reveal_strlit("update");
                    assert(k@ =~= update_name());
                }
                k
            },
            DirectoryActionEffect::CreateTree => {
                let k = "create_tree";
                proof {
                    reveal_strlit("create_tree");
                    assert(k@ =~= create_tree_name());
                }
                k
            },
            DirectoryActionEffect::Delete => {
                let k = "delete";
                proof {
                    reveal_strlit("delete");
                    assert(k@ =~= delete_name());
                }
                k
            },
        }
    }
}

/// What a plugin returns from a Directory action.
#[derive(Debug)]
pub struct PluginDirectoryActionOutput {
    pub view: Option<ActionView>,
    pub effects: Vec<DirectoryActionEffect>,
}

/// A Directory action's output together with the invocation it answers.
#[derive(Debug)]
pub struct DirectoryActionOutput {
    pub directory_id: DirectoryId,
    pub action: String,
    pub output: PluginDirectoryActionOutput,
}

} // verus!
