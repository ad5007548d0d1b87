//! Client library for the control API of a local media-streaming engine.
//!
//! The engine exposes a JSON-over-HTTP interface. This crate builds the
//! request URLs, decodes the JSON response bodies into typed values, keeps
//! the map of registered streams, and drives the polling/playback session
//! logic. Performing the HTTP requests themselves is left to the caller,
//! which hands the response bodies back as plain strings.

pub mod decode;
pub mod engine;
pub mod jsonx;
pub mod session;
pub mod types;
pub mod urlx;

pub use engine::Engine;

pub use types::AceResponse;
pub use types::AceResult;
pub use types::Player;
pub use types::Stat;
pub use types::Stream;
