//! Verified core of an interactive model viewer: the decisions of the orbit
//! camera's input handling, the pipeline cache and the per-frame render plan.

pub mod camera;
pub mod frame;
pub mod model;
pub mod pipeline;
pub mod resources;
pub mod state;
pub mod surface;
pub mod window;

use crate::resources::{parsed_url, resolver_of, AssetResolver};
use vstd::prelude::*;

verus! {

/// Decides whether the viewer starts on `url`. An empty source starts
/// nothing; any other source is started with the resolver that reaches its
/// files.
pub fn start(url: &str) -> (resolver: Option<AssetResolver>)
    ensures
        resolver is None <==> url@.len() == 0,
        resolver matches Some(r) ==> r@ == resolver_of(url@, parsed_url(url@) is Some),
{
    if url.is_empty() {
        None
    } else {
        Some(AssetResolver::for_source(url))
    }
}

} // verus!
