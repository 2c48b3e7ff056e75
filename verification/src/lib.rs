//! Lifecycle management for a GPU shader program: interpreting the driver's
//! compile and link reports, tracking stage-object cleanup, and hot-reloading
//! the linked program while keeping its wrapper's identity stable.
//!
//! The driver itself (an OpenGL context) is an outside collaborator: the
//! caller submits source text, queries status flags and diagnostic logs, and
//! feeds those plain values back into this library, which decides how the
//! build proceeds and what the resulting program object is.

pub mod engine;
pub mod program;
