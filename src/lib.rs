//! An HTTP relay in front of a chat platform's Web API: request tracing,
//! uniform problem-details errors, payload decoding, a single-call message
//! relay and a three-phase file-upload orchestrator.
//!
//! Everything that decides lives here and is verified; the server, the
//! outbound HTTP client and the log sinks drive it from outside.

pub mod text;
pub mod status;
pub mod errors;
pub mod config;
pub mod logging;
pub mod trace;
pub mod normalize;
pub mod decode;
pub mod envelope;
pub mod api;
pub mod reply;
pub mod relay;
pub mod upload;
