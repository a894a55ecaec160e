//! Verified core of a cover-image sampling tool for a digital-book
//! publishing platform.
//!
//! Given a collection identifier, the workflow checks it against a publisher
//! registry, samples ten of the collection's assets, resolves each asset's
//! cover-image location from its on-chain metadata, and records a per-item
//! outcome for every sampled asset. All decisions and document handling are
//! verified here; network and file traffic stay with the caller, which drives
//! the [`workflow::Workflow`] state machine one event at a time.

pub mod assets;
pub mod endpoints;
pub mod errors;
pub mod json;
pub mod metadata;
pub mod registry;
pub mod selection;
pub mod workflow;
