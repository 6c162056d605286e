//! Decision logic of a diagnostic agent that runs inside a host virtual
//! machine and answers introspection queries over a local HTTP+JSON endpoint.
//!
//! The library holds everything the agent decides: how its option string is
//! read, which port it listens on, in which order it starts up, how a request
//! path is routed and how each answer is rendered. The surrounding program
//! performs the native calls and the network I/O and hands plain values in.

pub mod decimal;
pub mod dispatch;
pub mod json;
pub mod jvmti;
pub mod lifecycle;
pub mod options;
pub mod response;
