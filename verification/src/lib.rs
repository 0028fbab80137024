//! Decisions of the Helix database runtime: migrations, caches, lifecycle and queries.
pub mod cache;
pub mod close;
pub mod config;
pub mod error;
pub mod id_map;
pub mod json;
pub mod lifecycle;
pub mod migrations;
pub mod mode;
pub mod names;
pub mod open;
pub mod operation_text;
pub mod query_service;
pub mod response;
pub mod runtime;
pub mod scope;
pub mod sequence;
pub mod text;
pub mod warm;
