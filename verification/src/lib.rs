//! Verified core of a reconstruction job server: admission and queue
//! accounting, the worker permit semaphore, job planning, matrix and image
//! index bookkeeping, report text, and the client's file helpers.

pub mod semaphore;
pub mod metrics;
pub mod text;
pub mod server;
pub mod shape;
pub mod report;
pub mod paths;
pub mod client;
pub mod worker;
