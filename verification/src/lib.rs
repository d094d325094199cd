//! Verified core of a terminal coding assistant: query building, consistent
//! hashing, consensus decisions, locking, caching, line editing and the
//! configuration rules, each stated over mathematical models.

pub mod text;
pub mod keyed;
pub mod ids;
pub mod error;
pub mod fs;
pub mod database;
pub mod hashing;
pub mod distributed;
pub mod image_processing;
pub mod images;
pub mod config;
pub mod cache;
pub mod collaboration;
pub mod gateway;
pub mod plugins;
pub mod context;
pub mod conversation;
pub mod cloud;
pub mod devops;
pub mod data_processing;
pub mod analytics;
pub mod ml;
pub mod inference;
pub mod network;
pub mod paths;
pub mod usage;
pub mod agent;
pub mod git;
pub mod cli;
pub mod mcp;
pub mod monitoring;

use vstd::prelude::*;

verus! {

/// The library's version.
pub const VERSION: &'static str = "0.1.0";

/// What the package is.
pub const DESCRIPTION: &'static str = "An agentic coding assistant for the terminal, written in Rust";

} // verus!
