//! Handle-lifecycle and marshalling layer for a native logging engine.
//!
//! The native engine (buffering, compression, rotation) is an external
//! collaborator reached over a C ABI; this crate holds everything on the near
//! side of that boundary and proves it correct: configuration validation and
//! marshalling, NUL-safe string preparation, the shared-ownership model that
//! releases a native instance exactly once, the numeric handle registry used
//! by callers that can only carry integers, the probe-then-resize protocol
//! for variable-length native replies, and the structured-event adapter.
//!
//! Every function that talks to the engine is split in two: the part that
//! decides and formats lives here with a contract, and the thin caller that
//! performs the foreign call consumes the values prepared here.

pub mod adapter;
pub mod bridge;
pub mod config;
pub mod fmt;
pub mod handle;
pub mod level;
pub mod lifecycle;
pub mod marshal;
pub mod probe;
pub mod registry;
pub mod visitor;
