//! Support for integration tests that run external commands: scoped temporary
//! workspaces copied from a template, supervised child processes that are
//! torn down (with their whole process group) when their handle is dropped,
//! concurrent capture of child output into shared text buffers, and
//! assertions on command outcomes.

pub mod capture;
pub mod child;
pub mod outcome;
pub mod workspace;
