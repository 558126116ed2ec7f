//! The configuration the routing logic reads.
pub mod setup;

use vstd::prelude::*;

use crate::routing::decision::{Profile, RouteTier, RoutingMode};

verus! {

/// One `[upstream.*]` section of `config.toml`.
#[derive(Debug, Clone)]
pub struct UpstreamEndpoint {
    pub base_url: String,
    pub api_key: Option<String>,
    pub model: Option<String>,
}

/// The `[upstream]` table: optional edge and cloud endpoints.
#[derive(Debug, Clone)]
pub struct UpstreamSection {
    pub edge: Option<UpstreamEndpoint>,
    pub cloud: Option<UpstreamEndpoint>,
}

/// The parts of `config.toml` that the upstream setup edits.
#[derive(Debug, Clone)]
pub struct ConfigFile {
    pub upstream: UpstreamSection,
}

impl Default for ConfigFile {
    fn default() -> (r: ConfigFile)
        ensures
            r.upstream.edge is None,
            r.upstream.cloud is None,
    {
        ConfigFile { upstream: UpstreamSection { edge: None, cloud: None } }
    }
}

/// Resolved gateway settings that the routing and admin logic consult.
#[derive(Debug, Clone)]
pub struct AppConfig {
    pub listen_addr: String,
    pub edge_base_url: Option<String>,
    pub edge_api_key: Option<String>,
    pub cloud_base_url: Option<String>,
    pub cloud_api_key: Option<String>,
    pub api_key: Option<String>,
    pub admin_token: Option<String>,
    pub default_profile: Profile,
    pub routing_mode: RoutingMode,
    pub fixed_route: Option<RouteTier>,
    pub ctx_edge_max_tokens: u32,
    pub cloud_sticky_ttl_secs: u64,
    pub session_persist_enabled: bool,
}

} // verus!
