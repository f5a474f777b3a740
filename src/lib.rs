//! Veracity evaluation engine: decides, for each package version, which supply-chain
//! trust factors (provenance attestation, reproducible builds) are evidenced, re-checks
//! only what can still change, and aggregates the outcomes of a batch.

pub mod package;
pub mod veracity;
pub mod interfaces;
pub mod analyser;
pub mod fakes;
pub mod coordinator;
pub mod authorities;
pub mod caching;
pub mod tasks;
pub mod resolution;
pub mod inquiry;
