//! Battery level and charging state of a Razer Basilisk V3 Pro, read over the
//! vendor's HID feature-report protocol.
//!
//! The library holds the protocol: the 90-byte report codec, the request and
//! response rules of one transaction, the choice of device among those the
//! platform lists, and the interpretation of the two command results.

pub mod orchestrator;
pub mod protocol;
pub mod report;
pub mod session;
pub mod transaction;
