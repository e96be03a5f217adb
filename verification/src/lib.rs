//! Lunaris core: the concurrency and dispatch substrate of a plugin host.
//!
//! The crate provides the scheduling state of a tiered, priority-aware worker
//! pool (bounded video-frame queue with backpressure, foreground/background
//! join counters, live reconfiguration), a process-wide mailbox that routes
//! envelopes by numeric slot and resolves symbolic endpoint names, and the
//! envelope/message value types that cross the plugin boundary, including the
//! tagged C-side representation.
//!
//! Everything here is sequential state and decision logic: the thread groups,
//! condition variables and the async runtime that drive it live in the host
//! binary, which consults this crate for every routing and counting decision.

pub mod errors;
pub mod host_api;
pub mod ids;
pub mod logging;
pub mod mailbox;
pub mod message;
pub mod opcode;
pub mod orchestrator;
pub mod request;
pub mod version;
pub mod worker;

pub use ids::IdAllocator;
pub use ids::get_next;
