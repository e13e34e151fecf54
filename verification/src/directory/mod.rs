//! Directory aggregate boundary: the aggregate, its located and relocation values, and the
//! decisions of the Directory application service.

pub mod contract;
pub mod domain;
pub mod workflow;
pub mod provisioning;
