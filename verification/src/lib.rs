//! Core of a "what is playing" reporter: layered configuration
//! resolution, a uniform media-source query protocol over a closed set
//! of backends, and the decision logic of a local OAuth callback
//! listener.  All I/O (files, sockets, the browser) lives outside this
//! crate; the functions here work on plain values and carry contracts.

pub mod api;
pub mod base;
pub mod config;
pub mod data;
pub mod error;
pub mod player;
pub mod text;
