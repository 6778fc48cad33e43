//! A documentation-resolution pipeline for a library-documentation service.
//!
//! Given a library identifier, the pipeline plans a fetch against a remote
//! documentation endpoint, classifies the outcome of that fetch, and either
//! formats the returned document, recovers from a not-found answer by ranking
//! search suggestions, or turns the failure into a flagged textual result.
//! All decisions and all formatting are verified; the surrounding process
//! performs the network calls and feeds their outcomes back in.

use vstd::prelude::*;

pub mod fmt;
pub mod laws;
pub mod numfmt;
pub mod pipeline;
pub mod types;

verus! {

/// The documentation-lookup tool: a namespace for the verified
/// resolution pipeline. Every step of a resolution is an associated
/// function of this type.
pub struct Context7Tool;

} // verus!
