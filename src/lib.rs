//! A multi-algorithm file checksum library: an algorithm registry over
//! outside digest primitives, a parser for checksum listings, and the
//! collection, ordering and rendering of hash and verification results.
pub mod algorithm;
pub mod hashfile;
pub mod pipeline;
pub mod primitives;
pub mod text;

pub use algorithm::{Algorithm, Mode};
