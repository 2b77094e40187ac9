//! Local LLM completion subsystem: model reference parsing and alias
//! resolution, a content-addressed artifact store with verified download
//! and integrity-check state machines, and a completion coordinator with
//! generation-stamped cancellation, debounce scheduling and token budgets.

pub mod completion;
pub mod downloader;
pub mod errors;
pub mod hashing;
pub mod huggingface;
pub mod manager;
pub mod paths;
pub mod settings;
pub mod state_store;
pub mod sidecar;
pub mod strutil;
