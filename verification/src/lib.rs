//! Configuration and bootstrap decisions for a pooled database client that
//! tells reader replicas from writer primaries: an explicit builder and an
//! environment-snapshot loader for the connection configuration, its exact
//! rendering into a connection URL, and the read-only probe decision that
//! accepts or rejects a host as a reader. Opening connections and pools is
//! asynchronous I/O and stays with the caller; every value decided from
//! what the caller hands back is specified and verified here.

pub mod config;
pub mod decimal;
pub mod reader;
