//! Core of a terminal client for locally hosted language models: the shared
//! application state, the per-view key handling, the decoder of streamed
//! chat replies and the scan of the remote model catalog.

pub mod laws;
pub mod model;
pub mod ollama;
pub mod search;
pub mod state;
pub mod stream;
pub mod text;
