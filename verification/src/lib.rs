//! Control plane of a live-captioning service: transcript lines, the run-state
//! machine that owns the session configuration, the transcript hub that fans
//! lines out to subscribers, and the read-failure budget of audio ingestion.

pub mod text;
pub mod line;
pub mod wire;
pub mod control;
pub mod machine;
pub mod laws;
pub mod ingest;
pub mod hub;
pub mod connection;
pub mod bus;
pub mod auth;
pub mod wordlists;
pub mod captions;
pub mod network;
