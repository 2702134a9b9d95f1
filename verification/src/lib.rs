//! Data-shuffle transport core for a distributed stream-processing engine.
//!
//! The crate models the boundary between a task's compute logic and its
//! transport layer: named FIFO channels with bounded-memory backpressure and
//! flow counters, the binary wire format of the pull-based publish/subscribe
//! protocol, the per-request batch service of a publish server, the state
//! machine of a subscribe client, and the metadata storage the task-resolution
//! logic depends on.

pub mod channel;
pub mod codec;
pub mod functions;
pub mod metadata;
pub mod metrics;
pub mod named;
pub mod pubsub;
pub mod runtime;
