//! Port reconnaissance: port-range planning, scan aggregation, direct-connect
//! sessions and a multi-protocol service fingerprinter, all as verified logic
//! over plain values. The sockets themselves are driven by the caller.

pub mod service;
pub mod text;
pub mod connect;
pub mod fingerprint;
pub mod range;
pub mod scan;
