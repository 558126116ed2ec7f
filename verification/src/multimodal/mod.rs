//! Multimodal capability records per model and upstream.
pub mod data;
pub mod fingerprint;

use vstd::prelude::*;

verus! {

/// How a multimodal request is routed.
#[derive(Debug, Clone, Copy, PartialEq, Eq, Default, Structural)]
pub enum MultimodalStrategy {
    #[default]
    NoStrategy,
    CachedEdge,
    CachedCloud,
    CachedEdgeFallback,
    Probe,
}

/// What the capability records suggest for a multimodal request.
#[derive(Debug, Clone, Copy, PartialEq, Eq, Structural)]
pub enum MultimodalRouteHint {
    CachedEdge,
    CachedCloud,
    CachedEdgeFallback,
    Probe,
}

/// The strategy that follows a hint: the hint's own variant.
pub open spec fn strategy_of(h: MultimodalRouteHint) -> MultimodalStrategy {
    match h {
        MultimodalRouteHint::CachedEdge => MultimodalStrategy::CachedEdge,
        MultimodalRouteHint::CachedCloud => MultimodalStrategy::CachedCloud,
        MultimodalRouteHint::CachedEdgeFallback => MultimodalStrategy::CachedEdgeFallback,
        MultimodalRouteHint::Probe => MultimodalStrategy::Probe,
    }
}

impl From<MultimodalRouteHint> for MultimodalStrategy {
    fn from(h: MultimodalRouteHint) -> (r: Self) {
        match h {
            MultimodalRouteHint::CachedEdge => MultimodalStrategy::CachedEdge,
            MultimodalRouteHint::CachedCloud => MultimodalStrategy::CachedCloud,
            MultimodalRouteHint::CachedEdgeFallback => MultimodalStrategy::CachedEdgeFallback,
            MultimodalRouteHint::Probe => MultimodalStrategy::Probe,
        }
    }
}

impl vstd::std_specs::convert::FromSpecImpl<MultimodalRouteHint> for MultimodalStrategy {
    open spec fn obeys_from_spec() -> bool {
        true
    }

    open spec fn from_spec(v: MultimodalRouteHint) -> MultimodalStrategy {
        strategy_of(v)
    }
}

} // verus!
