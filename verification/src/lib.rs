//! Unary RPC bindings for the `materializer.Materializer` service.
//!
//! The crate holds the decisions of one unary call on both sides of the
//! wire: which path a method is sent to, how its messages are put on the
//! wire and read back, how an incoming path is routed, and which status a
//! failure becomes. The transport is left to the caller: a call is a small
//! state machine that says what to do next and is told what came of it.

pub mod status;
pub mod wire;
pub mod message;
pub mod method;
pub mod routing;
pub mod interceptor;
pub mod client;
pub mod server;
