use vstd::prelude::*;

use super::decision::RouteTier;
use crate::config::AppConfig;
use crate::error::{AppError, AppResult};

verus! {

pub open spec fn edge_on(config: AppConfig) -> bool {
    config.edge_base_url is Some
}

pub open spec fn cloud_on(config: AppConfig) -> bool {
    config.cloud_base_url is Some
}

/// The edge upstream has a base URL.
pub fn edge_configured(config: &AppConfig) -> (r: bool)
    ensures
        r == edge_on(*config),
{
    config.edge_base_url.is_some()
}

/// The cloud upstream has a base URL.
pub fn cloud_configured(config: &AppConfig) -> (r: bool)
    ensures
        r == cloud_on(*config),
{
    config.cloud_base_url.is_some()
}

pub open spec fn no_upstream_message() -> Seq<char> {
    "no upstream configured: set [upstream.edge] and/or [upstream.cloud] in config.toml"@
}

/// Require at least one upstream in config before handling chat requests.
pub fn require_any_upstream(config: &AppConfig) -> (r: AppResult<()>)
    ensures
        r is Ok <==> (edge_on(*config) || cloud_on(*config)),
        r matches Err(e) ==> (e matches AppError::Unavailable(m) && m@ == no_upstream_message()),
{
    if edge_configured(config) || cloud_configured(config) {
        Ok(())
    } else {
        let m = "no upstream configured: set [upstream.edge] and/or [upstream.cloud] in config.toml";
        Err(AppError::Unavailable(m.to_owned()))
    }
}

/// The tier a request goes to once upstream availability is applied: with only
/// one side configured, that side; otherwise the routed tier.
pub open spec fn available_route(route: RouteTier, edge: bool, cloud: bool) -> RouteTier {
    if edge && !cloud {
        RouteTier::Edge
    } else if !edge && cloud {
        RouteTier::Cloud
    } else {
        route
    }
}

/// The reason code that records a forced tier, if any.
pub open spec fn availability_tag(edge: bool, cloud: bool) -> Option<Seq<char>> {
    if edge && !cloud {
        Some("UPSTREAM_EDGE_ONLY"@)
    } else if !edge && cloud {
        Some("UPSTREAM_CLOUD_ONLY"@)
    } else {
        None
    }
}

/// When only one side is configured, force all traffic to that side.
pub fn apply_upstream_availability(route: RouteTier, config: &AppConfig) -> (r: (
    RouteTier,
    Option<&'static str>,
))
    ensures
        r.0 == available_route(route, edge_on(*config), cloud_on(*config)),
        r.1 is Some == availability_tag(edge_on(*config), cloud_on(*config)) is Some,
        r.1 matches Some(t) ==> Some(t@) == availability_tag(edge_on(*config), cloud_on(*config)),
{
    let edge = edge_configured(config);
    let cloud = cloud_configured(config);
    if edge && !cloud {
        (RouteTier::Edge, Some("UPSTREAM_EDGE_ONLY"))
    } else if !edge && cloud {
        (RouteTier::Cloud, Some("UPSTREAM_CLOUD_ONLY"))
    } else {
        (route, None)
    }
}

/// Applies upstream availability to `route` and records a forced tier in `reason_codes`.
pub fn finalize_route(route: RouteTier, config: &AppConfig, reason_codes: &mut Vec<String>) -> (r:
    RouteTier)
    ensures
        r == available_route(route, edge_on(*config), cloud_on(*config)),
        match availability_tag(edge_on(*config), cloud_on(*config)) {
            Some(tag) => final(reason_codes)@.len() == old(reason_codes)@.len() + 1
                && final(reason_codes)@.take(old(reason_codes)@.len() as int) == old(reason_codes)@
                && final(reason_codes)@.last()@ == tag,
            None => final(reason_codes)@ == old(reason_codes)@,
        },
{
    let (route, tag) = apply_upstream_availability(route, config);
    if let Some(tag) = tag {
        reason_codes.push(tag.to_owned());
        assert(reason_codes@.take(old(reason_codes)@.len() as int) =~= old(reason_codes)@);
    }
    route
}

/// Whenever at least one upstream is configured, the finalized tier is one that
/// can be served: edge only with an edge upstream, cloud only with a cloud
/// upstream, and cascade only with both.
pub proof fn lemma_finalized_route_is_servable(route: RouteTier, edge: bool, cloud: bool)
    requires
        edge || cloud,
    ensures
        available_route(route, edge, cloud) == RouteTier::Edge ==> edge,
        available_route(route, edge, cloud) == RouteTier::Cloud ==> cloud,
        available_route(route, edge, cloud) == RouteTier::Cascade ==> edge && cloud,
{
}

} // verus!
