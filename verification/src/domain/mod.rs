//! Domain values shared by the Resource and Directory aggregates.

pub mod checksum;
pub mod ids;
pub mod path;
pub mod resource;
