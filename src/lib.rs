//! Idempotent access to version-controlled configuration repositories for a
//! host process that speaks a length-prefixed binary protocol.
pub mod engine;
pub mod error;
pub mod files;
pub mod framing;
pub mod git;
pub mod protocol;
