//! Snowflake identifiers for a cluster of independent workers.
//!
//! Each worker holds a small `(datacenter, worker)` coordinate and issues
//! 63-bit, time-sortable identifiers without talking to any other worker: an
//! identifier packs the milliseconds since an epoch, the coordinate and a
//! sequence number within the millisecond.
//!
//! - [`layout`]: the bit layout of an identifier.
//! - [`decimal`]: small numbers written as text.
//! - [`coordinate`]: the coordinate of a worker, and what can be wrong with a
//!   configuration.
//! - [`resolver`]: from raw configuration to a coordinate.
//! - [`generator`]: the generator, which issues identifiers one by one or in
//!   batches.
//! - [`request`]: from one request to one answer.
//! - [`history`]: what holds of everything that a generator issues over its
//!   life: no identifier twice, each larger than the one before.

pub mod layout;
pub mod decimal;
pub mod coordinate;
pub mod resolver;
pub mod generator;
pub mod request;
pub mod history;
