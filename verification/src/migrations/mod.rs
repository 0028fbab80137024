//! Durable migrations of the stored format.
pub mod acceptance;
pub mod allocators;
pub mod batch;
pub mod candidates;
pub mod catalog;
pub mod checkpoint;
pub mod controller;
pub mod convergence;
pub mod definition_migration;
pub mod definitions;
pub mod differences;
pub mod digest;
pub mod edges;
pub mod failpoints;
pub mod job;
pub mod job_codec;
pub mod keys;
pub mod markers;
pub mod parity;
pub mod preflight;
pub mod records;
pub mod recovery;
pub mod startup;
