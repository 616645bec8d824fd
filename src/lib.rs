//! Asset-integrity validation: fingerprints of content files, their
//! sidecar metadata records, and the rules that keep the two in step.

pub mod timestamp;
pub mod crypto;
pub mod meta;
pub mod validate;
pub mod update;
pub mod directory;
pub mod asset;
pub mod guarantees;
