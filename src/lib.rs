//! Bootstrap and connection-acceptance core of a web server.
//!
//! The library holds the decisions of server startup: which address to
//! listen on, how many worker threads to run, what to do with each event of
//! the accept loop, and when a drained executor may stop. The I/O that carries
//! those decisions out is driven by the caller.
pub mod address;
pub mod bootstrap;
pub mod error;
pub mod executor;
pub mod service;
