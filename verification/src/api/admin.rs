use vstd::prelude::*;

use super::meta::{profile_name, profile_name_spec};
use crate::config::AppConfig;
use crate::routing::upstream_availability::{cloud_configured, cloud_on, edge_configured, edge_on};
use crate::stats::StatsScope;
use crate::text::str_eq;

verus! {

/// What `GET /v1/admin/status` reports.
#[derive(Debug, Clone)]
pub struct GatewayStatus {
    pub status: &'static str,
    pub version: &'static str,
    pub listen: String,
    pub pid: u32,
    pub uptime_secs: u64,
    pub edge_configured: bool,
    pub cloud_configured: bool,
    pub default_profile: String,
    pub pid_file: String,
    pub data_dir: String,
}

/// Query of `GET /v1/admin/stats`: `session` (default) = current gateway
/// process; `global` = cumulative persisted totals.
#[derive(Debug, Clone)]
pub struct StatsQuery {
    pub scope: Option<String>,
}

/// The scope a stats query asks for: none or exactly `session` is the session,
/// exactly `global` the persisted totals; anything else is refused (`None`).
pub open spec fn requested_scope_spec(scope: Option<Seq<char>>) -> Option<StatsScope> {
    match scope {
        None => Some(StatsScope::Session),
        Some(s) => if s == "session"@ {
            Some(StatsScope::Session)
        } else if s == "global"@ {
            Some(StatsScope::Global)
        } else {
            None
        },
    }
}

/// The scope a stats query asks for, or `None` for an invalid scope.
pub fn requested_scope(query: &StatsQuery) -> (r: Option<StatsScope>)
    ensures
        r == requested_scope_spec(
            match query.scope {
                Some(s) => Some(s@),
                None => None,
            },
        ),
{
    match &query.scope {
        None => Some(StatsScope::Session),
        Some(s) => {
            if str_eq(s.as_str(), "session") {
                Some(StatsScope::Session)
            } else if str_eq(s.as_str(), "global") {
                Some(StatsScope::Global)
            } else {
                None
            }
        },
    }
}

/// An admin request passes when no admin token is configured, or when the
/// `X-Flowy-Admin-Token` header carries exactly the configured token.
pub open spec fn admin_ok(expected: Option<String>, provided: Option<Seq<char>>) -> bool {
    match expected {
        None => true,
        Some(e) => provided == Some(e@),
    }
}

/// Whether an admin request carries the configured admin token, if any.
pub fn admin_token_accepted(expected: &Option<String>, provided: Option<&str>) -> (r: bool)
    ensures
        r == admin_ok(
            *expected,
            match provided {
                Some(p) => Some(p@),
                None => None,
            },
        ),
{
    match expected {
        None => true,
        Some(e) => match provided {
            Some(p) => str_eq(p, e.as_str()),
            None => false,
        },
    }
}

/// The status report of a running gateway.
pub fn gateway_status(
    config: &AppConfig,
    version: &'static str,
    pid: u32,
    uptime_secs: u64,
    pid_file: String,
    data_dir: String,
) -> (r: GatewayStatus)
    ensures
        r.status@ == "running"@,
        r.version == version,
        r.listen@ == config.listen_addr@,
        r.pid == pid,
        r.uptime_secs == uptime_secs,
        r.edge_configured == edge_on(*config),
        r.cloud_configured == cloud_on(*config),
        r.default_profile@ == profile_name_spec(config.default_profile),
        r.pid_file == pid_file,
        r.data_dir == data_dir,
{
    GatewayStatus {
        status: "running",
        version,
        listen: config.listen_addr.clone(),
        pid,
        uptime_secs,
        edge_configured: edge_configured(config),
        cloud_configured: cloud_configured(config),
        default_profile: profile_name(config.default_profile).to_owned(),
        pid_file,
        data_dir,
    }
}

} // verus!
