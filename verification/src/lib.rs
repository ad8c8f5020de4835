//! Multi-line, color-coded status diagrams for an interactive shell prompt.
//!
//! The library has two halves: a pure renderer that lays an ordered
//! sequence of indented, colored lines out as a box-drawing diagram, and a
//! per-path background worker that recomputes the rendered prompt
//! asynchronously, serving either the fresh result or the last cached one
//! under a hard time budget.

pub mod color;
pub mod line;
pub mod render;
pub mod buffer;
pub mod thread;
pub mod supervisor;
pub mod git;
