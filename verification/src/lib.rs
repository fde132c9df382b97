//! Request-dispatch facade for an S3-compatible object-storage HTTP server.
//!
//! A builder assembles one immutable service from a mandatory operation
//! dispatcher and four optional protocol-middleware roles (host resolver,
//! authenticator, access controller, router). The service is then wrapped
//! in a cheaply cloneable shared handle so many concurrent connections can
//! dispatch through the same configuration, and a connection factory hands
//! each connection its own clone of that handle.
//!
//! The operation dispatcher itself is an external, asynchronous
//! collaborator. Each dispatch therefore splits into a verified beginning
//! (take a clock reading, build the execution context), the external await
//! performed by the surrounding transport layer, and a verified finish
//! (surface the dispatcher's result verbatim and say what to log).

pub mod clock;
pub mod service;
pub mod shared;
