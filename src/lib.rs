//! Orchestration of export compilation over a workspace of packages.
//!
//! The library decides; the caller acts. It picks the packages that take part,
//! drives each package through checking, entry-point compilation and artifact
//! writing as a state machine, applies the warnings policy to diagnostics, and
//! folds the per-package outcomes into one result.
pub mod artifact;
pub mod options;
pub mod report;
pub mod run;
pub mod unit;
pub mod workspace;
