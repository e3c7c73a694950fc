//! A per-connection bridge between a client speaking a small framed binary
//! protocol and an interactive process on a pseudo-terminal.
//!
//! The library holds the decisions: how frames are encoded and decoded, what
//! each inbound message does, what each chunk of process output becomes, and
//! the lifecycle of a session. Running the socket and the process is left to
//! the caller, which performs the effects the library returns.
pub mod codec;
pub mod pump;
pub mod session;
