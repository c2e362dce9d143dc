//! Deferred encoding of transformer layers for a GPU: a scope checks the shapes of
//! an operation, records the commands that carry it out, and hands back buffers
//! that hold the result once the recording has run.

use vstd::prelude::*;

pub mod accepts;
pub mod args;
pub mod arith;
pub mod attention;
pub mod binds;
pub mod chains;
pub mod command;
pub mod compress;
pub mod config;
pub mod dispatcher;
pub mod drain;
pub mod error;
pub mod f16;
pub mod ffn;
pub mod flow;
pub mod grids;
pub mod growth;
pub mod halves;
pub mod hc;
pub mod indexer;
pub mod kernel;
pub mod laws;
pub mod layer;
pub mod matmul;
pub mod moe;
pub mod mtp;
pub mod norm;
pub mod numbers;
pub mod pool;
pub mod router;
pub mod rows;
pub mod scope;
pub mod settings;
pub mod shared;
pub mod singles;
pub mod steps;
pub mod streaming;
pub mod trace;
pub mod window;

verus! {

} // verus!
