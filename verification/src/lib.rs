//! Tree retrieval and upload for a version-control server, with the rules
//! that decide which files a commit may carry and how a client store is
//! assembled from its configuration.
//!
//! Every decision is a function from plain values to plain values. Work that
//! has to wait on a store is described as an action for the caller to perform;
//! the caller hands the answer back as an event.

pub mod batch;
pub mod blob;
pub mod builder;
pub mod config;
pub mod errors;
pub mod expand;
pub mod fanout;
pub mod fetch;
pub mod hook;
pub mod laws;
pub mod model;
pub mod store;
pub mod upload;
pub mod validate;
