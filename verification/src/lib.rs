//! Core logic of an N-body trajectory propagator that writes SPK type-9
//! ephemeris segments.
//!
//! The numeric driver (floating-point integration, ephemeris lookups, SPK
//! file I/O) lives outside this crate; what is verified here is everything
//! the driver decides with: the canonical body ordering and the layout of
//! flattened state vectors, run validation, resolution of body labels to
//! NAIF IDs, the enumeration of gravitational interaction pairs, trajectory
//! down-sampling, the fixed-step schedule, and the per-segment write plan.

pub mod bodies;
pub mod config;
pub mod layout;
pub mod pairs;
pub mod sampling;
pub mod schedule;
pub mod segments;

