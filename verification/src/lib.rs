//! Markdown preview and export library: a verified rendering pipeline
//! (document compilation, diagram substitution, page assembly) and the
//! state machine behind live-preview watch sessions.
//!
//! The surrounding program owns all I/O: it reads documents and
//! template assets, runs the HTTP server and the export commands, and
//! hands this library plain values. Everything the library computes is
//! specified and verified; the two outside capabilities it leans on —
//! markdown conversion and template substitution — are named at their
//! interface and called through trusted wrappers.

pub mod cache;
pub mod chars;
pub mod convert;
pub mod diagram;
pub mod errors;
pub mod katex;
pub mod lines;
pub mod paths;
pub mod render;
pub mod template;
pub mod title;
pub mod watch;

pub use errors::RenderError;
pub use katex::MacroDef;
pub use render::{render_doc, IndexParams};
pub use template::{PageTemplate, Template};
pub use watch::{WatchAction, WatchSession};
