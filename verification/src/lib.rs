//! A declarative, failure-tolerant engine for inventorying cloud resources.
//!
//! Resource types declare *how* they are fetched (a plain listing, a batch of
//! independent listings, or a listing followed by per-item detail enrichment)
//! and a single orchestrator interprets those declarations, merging many
//! partial, failure-tolerant fetches into a uniform stream of output records.

use vstd::prelude::*;

pub mod aws_cli;
pub mod cli;
pub mod clock;
pub mod collector_builder;
pub mod commands;
pub mod collectors;
pub mod document;
pub mod engine;
pub mod executor;
pub mod models;
pub mod output;
pub mod parallel;
pub mod regions;
pub mod strings;

verus! {

} // verus!
