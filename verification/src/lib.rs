//! Orchestration of archive-building jobs: the job records and their
//! registry, the worker's checkpoint protocol with cooperative cancellation,
//! the archive builder, and the service operations that tie them together.

pub mod text;
pub mod task;
pub mod time;
pub mod registry;
pub mod archive;
pub mod ident;
pub mod size;
pub mod worker;
pub mod service;
pub mod rest;
pub mod laws;
