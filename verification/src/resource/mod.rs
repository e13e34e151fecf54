//! Resource aggregate boundary: domain intents, query values, storage key derivation and the
//! decisions of the Resource application services.

pub mod content;
pub mod contract;
pub mod domain;
pub mod path_resolver;
pub mod preview;
pub mod query;
pub mod reconciliation;
pub mod recovery;
pub mod storage_sync;
pub mod upload;
pub mod upload_flow;
pub mod lifecycle;

use crate::domain::path::{DirectoryPath, StorageKey};
use crate::error::CoreError;
use crate::resource::path_resolver::resource_key_text;
use vstd::prelude::*;

verus! {

/// Derive the visible Blob key for a Resource name in a resolved Directory path: the name itself
/// in the root, `directory/name` elsewhere.
pub fn storage_key_from_resource_path(directory: &DirectoryPath, name: &str) -> (r: Result<
    StorageKey,
    CoreError,
>)
    ensures
        match r {
            Ok(k) => k@ == resource_key_text(directory@, name@),
            Err(e) => !crate::domain::path::valid_path(resource_key_text(directory@, name@)) && e
                == CoreError::InvalidStorageKey,
        },
{
    crate::resource::path_resolver::resource_key(directory, name)
}

} // verus!
