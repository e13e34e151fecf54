//! Resource and Directory actions: execution limits, action definitions, the outputs plugins
//! return, and the decisions that validate and apply those outputs.

pub mod definition;

pub mod orchestration;
pub mod output;
pub mod policy;
