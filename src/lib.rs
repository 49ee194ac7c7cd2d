//! Time-indexed series of observations held by the entities of a financial knowledge
//! graph, a uniform contract to append to and query them, and edge records that
//! snapshot the identities of the entities they relate.
use vstd::prelude::*;

pub mod dynamic;
pub mod edges;
pub mod nodes;
pub mod series;

verus! {

} // verus!
