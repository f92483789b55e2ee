//! The three independent facets of a platform layer, fixed before anything is
//! written into the layer.
use vstd::prelude::*;

verus! {

/// Where a layer is visible and whether it outlives the build.
#[derive(Clone, Copy, Debug, PartialEq, Eq, Structural)]
pub struct LayerFacets {
    /// Exposed to the run phase.
    pub launch: bool,
    /// Exposed to later build phases.
    pub build: bool,
    /// Persisted across builds.
    pub cache: bool,
}

/// The facets of the runtime layer: launched with the app and kept between builds.
pub open spec fn runtime_facets_spec() -> LayerFacets {
    LayerFacets { launch: true, build: false, cache: true }
}

/// The facets of the detection layer: launched with the app, never reused.
pub open spec fn detection_facets_spec() -> LayerFacets {
    LayerFacets { launch: true, build: false, cache: false }
}

/// Facets of the layer that holds the function runtime.
pub fn runtime_layer_facets() -> (r: LayerFacets)
    ensures
        r == runtime_facets_spec(),
{
    LayerFacets { launch: true, build: false, cache: true }
}

/// Facets of the layer into which the detector writes its manifest.
pub fn detection_layer_facets() -> (r: LayerFacets)
    ensures
        r == detection_facets_spec(),
{
    LayerFacets { launch: true, build: false, cache: false }
}

} // verus!
