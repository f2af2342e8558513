//! A minimal blocking TCP responder.
//!
//! The library holds the verified core of a sequential loopback HTTP
//! responder: the fixed response bytes, the reliable-write loop that
//! absorbs partial writes, and the state machine that drives the
//! listening socket through create, bind, listen, accept and close.
//! The operating-system calls themselves live outside the library;
//! callers feed their raw results back in as events.

pub mod net;
pub mod response;
pub mod server;
pub mod writer;
