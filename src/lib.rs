//! Core of a broadcast chat service: the frame protocol spoken on each
//! connection, the coordinator's session registry, and the per-connection
//! session state machine. The network plumbing lives outside this library.
//! Two small utilities stand beside it: a plane point and a sentence splitter.

pub mod protocol;
pub mod server;
pub mod session;
pub mod point;
pub mod words;
