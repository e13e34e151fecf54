//! Asset Hub core: verified domain rules for Resources, Directories, storage keys, content
//! checksums, recovery decisions and image header metadata.

pub mod action;
pub mod asset;
pub mod authorization;
pub mod directory;
pub mod domain;
pub mod error;
pub mod idempotency;
pub mod image_metadata;
pub mod resource;
pub mod text;
pub mod text_order;
pub mod user;
