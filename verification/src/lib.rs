//! A lightweight service-discovery registry: an in-memory store of Hub and
//! Server records keyed by identifier, the discovery and info RPC handler
//! logic around it, and the decision step of the self-registration
//! reconciliation loop.

pub mod discovery;
pub mod info;
pub mod model;
pub mod reconcile;
pub mod store;
