//! Synchronisation for a kernel that runs on one core.

pub mod conflict;
pub mod up;
