//! Supervision of external download workers: job identifiers, the registry of
//! live jobs, the ordered fallback over the commands that may run a worker,
//! and the life of a job from its launch to its terminal report.

pub mod event;
pub mod fallback;
pub mod ident;
pub mod lifecycle;
pub mod registry;
pub mod settings;
pub mod supervisor;
pub mod text;
pub mod worker;
