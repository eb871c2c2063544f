//! Data-driven tests: a test that is written once and run on each file that matches a pattern, or
//! on each of a list of cases.
//!
//! Descriptors of such tests, and of regular ones, are expanded into the tests that a harness runs.
pub mod data;
pub mod descriptor;
pub mod error;
pub mod files;
pub mod harness;
pub mod laws;
pub mod names;
pub mod pattern;
pub mod registry;
pub mod results;
pub mod runner;
pub mod termination;
