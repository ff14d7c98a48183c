//! Core of an asynchronous job-dispatch and shared-cache synchronization
//! subsystem for a chat client: a frame-driven producer appends jobs to a
//! FIFO queue and reads lock-protected cache slots, while a rate-limited
//! worker pops one job per tick and applies each completed remote call to
//! the matching slot.

pub mod config;
pub mod fetch;
pub mod guild;
pub mod jobs;
pub mod model;
pub mod queue;
pub mod shared_cache;
pub mod ticker;
pub mod util;
pub mod worker;
