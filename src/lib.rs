//! Generational key management and password credential handling.
//!
//! Key material changes over time through rotation while data produced under
//! older generations stays verifiable for as long as the generation is retained.

pub mod algo;
pub mod generation;
pub mod stable;
pub mod rotating;
pub mod rotator;
pub mod encoding;
pub mod credentials;
pub mod routes;
pub mod shared;
pub mod login;
