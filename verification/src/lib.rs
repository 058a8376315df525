//! Bootstrap of an out-of-process crash helper.
//!
//! A host application uses this library at startup to wire up a standalone
//! watcher process: it allocates a private duplex channel, serializes the
//! channel ends into tokens a separate process can use to reconstruct them,
//! launches the helper executable with those tokens and the crash metadata,
//! and synchronously confirms that the hand-off completed before any
//! crash-reporting capability is considered available.

pub mod channel;
pub mod client;
pub mod decimal;
pub mod envblock;
pub mod errors;
pub mod launch;
