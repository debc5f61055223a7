//! The upload subsystem.

pub mod block;
pub mod destination;
pub mod gdrive;
pub mod orchestrator;
pub mod resume;
pub mod session;
pub mod tiling;
pub mod tracker;
