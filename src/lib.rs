//! A reverse-tunnel HTTP proxy: the request-correlation engine that links a
//! public HTTP front end to clients connected over an RPC stream, and the
//! decisions each side takes on the way.
pub mod egress;
pub mod ingress;
pub mod message;
pub mod service;
pub mod store;
pub mod syntax;
pub mod wire;
