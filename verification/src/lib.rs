//! A fixed-size binary command-packet codec for a report-based device
//! transport. Every report is sixteen bytes: typed header fields, a payload
//! region, and a trailing checksum byte. The codec enforces the checksum and
//! offset rules on every mutation.

pub mod checksum;
pub mod command;
