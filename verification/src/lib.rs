//! A verified route table for a small HTTP server.
//!
//! The library models the server's routing tree: a fixed API mount with three
//! routes, a static-asset mount for a WebAssembly bundle, and a catch-all
//! static-asset mount at the root. Dispatching a request against the tree is
//! pure logic and is verified here; the surrounding process (the listener,
//! file reads, logging) lives outside the library and hands it plain values.

pub mod dispatch;
pub mod laws;
pub mod router;
