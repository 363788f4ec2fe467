//! Privacy-preserving running statistics with a differential-privacy
//! budget, together with a small planar-geometry toolkit.
//!
//! The statistics engine ingests fixed-point observations one at a time
//! and answers COUNT and AVERAGE queries with Laplace noise, debiting a
//! privacy budget for every answer. All arithmetic is binary fixed-point
//! so that replicas replaying the same pseudorandom stream derive
//! identical results, and every persisted field has a fixed big-endian
//! byte encoding.
//!
//! The heart of the engine is [`stats`]: a session whose mutating
//! operations are proved equal to specification-level transition
//! functions, with the budget and state-machine laws proved about those.
//! [`running_stats_store`] is the same state machine persisted through the
//! byte-keyed store of [`kv`]; [`laplace`] and [`random`] supply the noise
//! primitive; [`codec`] holds the byte encodings; [`integer_geom`] and
//! [`fixed_geom`] are an unrelated planar-geometry sibling sharing the
//! fixed-point scalar.

pub mod codec;
pub mod errors;
pub mod fixed;
pub mod fixed_geom;
pub mod integer_geom;
pub mod kv;
pub mod laplace;
pub mod random;
pub mod running_stats_store;
pub mod stats;
