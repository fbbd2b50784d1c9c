//! State and decisions of a desktop client for text-generation models.
//!
//! The crate holds the parts of the client that decide something: which
//! model families exist, which panels of the application shell are open, and
//! the life cycle of the single background task of a completion window.
//! Rendering, font discovery and the task runtime live outside and talk to
//! these types through plain values.

pub mod complete_window;
pub mod fonts;
pub mod lifecycle;
pub mod model;
pub mod session;
pub mod shell;
