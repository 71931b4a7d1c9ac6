//! Coordination layer for a content-recognition front-end service.
//!
//! Callers submit binary media over HTTP; recognition itself is performed by
//! external workers. This crate holds the verified core of the front-end:
//! configuration resolution, media sniffing and canonicalization, the job
//! lifecycle coordinator, and the worker-facing lease/ingest logic. All
//! network and store I/O is performed by the surrounding binary, which drives
//! the state machines defined here.

pub mod config;
pub mod coordinator;
pub mod credentials;
pub mod http_api;
pub mod json_text;
pub mod media;
pub mod model;
pub mod requests;
pub mod worker;
