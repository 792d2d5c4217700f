//! Core data layer for a typed API client: a flexible UTC timestamp that
//! decodes from either an ISO-8601 string or an epoch-seconds integer, and
//! sparse request records that serialize exactly the fields their caller set,
//! in declaration order.

pub mod datetime;
pub mod json;
pub mod rep;
pub mod stars;
pub mod statuses;
