//! Discovery of the host's default gateways from routing-table records, and
//! an aged cache of the discovered addresses for service-discovery consumers.

pub mod clock;
pub mod laws;
pub mod route;
pub mod store;
pub mod text;
