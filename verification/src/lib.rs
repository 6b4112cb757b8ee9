//! An in-memory key-value cache whose entries expire after a fixed
//! time-to-live.
//!
//! Entries are stamped when they are written. Reads never filter by age; a
//! periodic sweep removes what has outlived the time-to-live. The router maps
//! an inbound operation (method, path, body) to store operations and to the
//! reply that the transport sends back.

pub mod clock;
pub mod entry;
pub mod store;
pub mod evictor;
pub mod decimal;
pub mod router;
pub mod laws;
