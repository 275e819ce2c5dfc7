//! A data-access layer over named relational backends: an argument builder,
//! statement builders, a registry of read/write pools, the read-replica
//! fallback protocol and the transaction finalization state, each with its
//! behaviour stated in contracts and proved.
pub mod args;
pub mod arcx;
pub mod config;
pub mod duration;
pub mod error;
pub mod read;
pub mod repo;
pub mod sql;
pub mod store;
pub mod support;
pub mod text;
pub mod tx;
