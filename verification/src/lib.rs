//! An in-memory virtual document store that serves as the resource-resolution
//! backend for the typst compiler, together with a page-rendering front-end.
//!
//! The store maps virtual file identities to mutable documents; one designated
//! "global context" document is implicitly prepended to every other document at
//! resolution time, without ever being written back. A font catalog pairs
//! aggregate metadata with an index-stable list of font objects, and the
//! renderer turns one page of a compiled document into an SVG artifact.

pub mod context;
pub mod dates;
pub mod document;
pub mod errors;
pub mod fonts;
pub mod ids;
pub mod render;
pub mod store;
pub mod ui;
pub mod world;
