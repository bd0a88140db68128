//! Worker-side build pipeline for a distributed package-build farm.
//!
//! The library holds the verified logic of a build worker: deriving the
//! build-scoped directory layout from a task request, deciding each step of
//! the pipeline as a state machine, classifying and hashing produced
//! artifacts, rendering the builder configuration, and turning the pipeline
//! result into the outcome message sent back to the orchestrator.
//! Filesystem access, git commands, the builder subprocess and the RPC
//! delivery are performed by the surrounding binary, which executes the
//! actions this library emits.
pub mod collect;
pub mod compress;
pub mod config;
pub mod digest;
pub mod fsmodel;
pub mod pipeline;
pub mod report;
pub mod sync;
pub mod text;
pub mod uri;
