//! Builds the command line for one run of a build tool over a chosen set of
//! optional features, and classifies how that run ended.

pub mod banner;
pub mod command;
pub mod features;
pub mod outcome;
pub mod passthrough;
pub mod runner;
