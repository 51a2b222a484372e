//! Signaling core of a MediaSoup SFU server for FoundryVTT.
//!
//! The crate holds the parts of the server that decide: the authentication
//! gate, the per-connection protocol state machine, the signaling envelope and
//! its request payloads, the reply rules, and the worker pool.  Network I/O and
//! the media engine itself live in the application around it.

pub mod auth;
pub mod error;
pub mod json;
pub mod signaling;
pub mod request;
pub mod session;
pub mod tls;
pub mod workers;

pub use error::MediaSoupError;
pub use signaling::{IncomingMessage, OutgoingMessage};
pub use workers::CustomWorkerManager;
