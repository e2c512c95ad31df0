//! Terminal screen-lock core: a verified input editor and lock-session state
//! machine. The terminal, the key-event source and the host authentication
//! backend stay outside; the library takes plain key events and verifier
//! verdicts in and hands render snapshots and actions back.

pub mod editor;
pub mod laws;
pub mod model;
pub mod session;
pub mod text;
