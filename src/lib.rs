//! Building and packaging a proxy-server release: the decisions of each
//! stage, verified, with the outside work left to the caller.

pub mod checksum;
pub mod cli;
pub mod compile;
pub mod download;
pub mod errors;
pub mod package;
pub mod pipeline;
pub mod repo;
pub mod text;

use vstd::prelude::*;

verus! {

} // verus!
