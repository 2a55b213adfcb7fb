//! Random-beacon contribution for a multi-party trusted-setup ceremony.
//!
//! A public beacon value is stretched through a long sequential SHA-256
//! chain, the end of the chain seeds a deterministic generator, and that
//! generator drives one last contribution to the ceremony parameters.

pub mod beacon;
pub mod chain;
pub mod error;
pub mod pipeline;
pub mod report;
pub mod seed;
