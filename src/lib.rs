//! Verified core of an ActivityPub federation library: object identifiers
//! typed by the kind of object they resolve to, the local-first object
//! resolver with staleness and fetch-limit policy, and the ordered checks that
//! an inbound activity goes through.

pub mod context;
pub mod error;
pub mod inbox;
pub mod object_id;
pub mod resolver;
