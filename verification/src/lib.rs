//! Core of an HTML-to-video effect plugin: renders live, animated web
//! content into fixed-size RGBA8888 frames on demand.
//!
//! This crate holds the verified bridge between a thread-confined rendering
//! engine and a synchronous per-frame caller: frame geometry and buffer
//! handling, the frame multiplexer that wires live video inputs into the
//! document through a double-buffered pixel store, the slot discovery and
//! element binding against the document engine, the processor state machine
//! that keeps the worker protocol honest, and the template preprocessing
//! that turns a document source plus optional JSON data into final markup.
//! The document, paint and network engines themselves are external
//! collaborators, reached only through narrow trusted interfaces.

pub mod document;
pub mod errors;
pub mod fetch;
pub mod frame;
pub mod job;
pub mod mux;
pub mod plugin;
pub mod processor;
pub mod template;
