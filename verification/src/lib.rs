//! Builds a point-in-time snapshot of a host's network interface state from
//! kernel netlink address messages: bounded decoding of fixed-width fields
//! out of untrusted attribute buffers, dispatch by address family, and
//! incremental merging of fragments into one per-interface record store
//! correlated purely by numeric index.

pub mod cache_info;
pub mod error;
pub mod iface;
pub mod ip;
pub mod ip_str;
pub mod msg;
pub mod num_str;
pub mod reader;
pub mod store;
