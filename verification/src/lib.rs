//! The routing and connection-pooling core of a subnet management
//! agent: a hierarchy model for subnet identifiers, a hot-swappable
//! configuration snapshot, a connection pool that builds and
//! re-validates one connection per subnet, a method registry that
//! dispatches untyped request payloads to typed handlers, token amount
//! conversion, and best-effort wallet balance aggregation.

pub mod address;
pub mod amount;
pub mod config;
pub mod dispatch;
pub mod errors;
pub mod handlers;
pub mod json;
pub mod pool;
pub mod subnet_id;
pub mod wallet;
