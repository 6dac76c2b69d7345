//! Core of a block-based automation system: a template-driven compiler that
//! turns a graph of visual blocks into script text, a sandboxed script engine
//! that validates and runs that text under fixed resource limits, and a
//! versioned automation store that only persists records whose script
//! compiles cleanly.

pub mod automation;
pub mod bindings;
pub mod catalog;
pub mod engine;
pub mod generator;
pub mod host;
pub mod json;
pub mod kv;
pub mod laws;
pub mod template;

use vstd::prelude::*;

verus! {

} // verus!
