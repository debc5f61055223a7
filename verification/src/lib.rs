//! The logic of a backup orchestrator, verified: the resumable, chunked
//! upload of exports to cloud storage at its centre, with progress tracking
//! for blocks that finish out of order, the requests of an upload session,
//! the decisions to retry, to wait and to give up, and the resolution of
//! destinations; around it the settings, the plan of a run, and the texts
//! that the surrounding program needs.

pub mod decimal;
pub mod dispatch;
pub mod exports;
pub mod mysql;
pub mod resources;
pub mod rsync;
pub mod settings;
pub mod upload;
