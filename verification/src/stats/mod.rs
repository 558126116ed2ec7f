//! Traffic counters and the integer sections of their snapshots.
pub mod data;
pub mod metrics;

use vstd::prelude::*;

use crate::text::{lemma_lowercase_text_is_itself, lowered_text_is, str_lowered_is};
use data::StatsData;

verus! {

/// Which counters a snapshot reads: this process's session or the persisted totals.
#[derive(Debug, Clone, Copy, PartialEq, Eq, Structural)]
pub enum StatsScope {
    Session,
    Global,
}

pub open spec fn scope_name(s: StatsScope) -> Seq<char> {
    match s {
        StatsScope::Session => "session"@,
        StatsScope::Global => "global"@,
    }
}

pub open spec fn scope_of(s: Seq<char>) -> Option<StatsScope> {
    if lowered_text_is(s, "session"@) {
        Some(StatsScope::Session)
    } else if lowered_text_is(s, "global"@) {
        Some(StatsScope::Global)
    } else {
        None
    }
}

impl StatsScope {
    pub fn as_str(self) -> (r: &'static str)
        ensures
            r@ == scope_name(self),
    {
        match self {
            StatsScope::Session => "session",
            StatsScope::Global => "global",
        }
    }

    /// Parses `session` or `global`, ignoring ASCII case.
    pub fn parse(s: &str) -> (r: Option<Self>)
        ensures
            r == scope_of(s@),
    {
        if str_lowered_is(s, "session") {
            Some(StatsScope::Session)
        } else if str_lowered_is(s, "global") {
            Some(StatsScope::Global)
        } else {
            None
        }
    }
}

/// Parsing the name of a scope gives that scope back.
pub proof fn lemma_scope_name_round_trip(sc: StatsScope)
    ensures
        scope_of(scope_name(sc)) == Some(sc),
{
    reveal_strlit("session");
    reveal_strlit("global");
    lemma_lowercase_text_is_itself("session"@);
    lemma_lowercase_text_is_itself("global"@);
    if sc == StatsScope::Global {
        // "global" and "session" differ in length, so their encodings differ.
        vstd::utf8::is_ascii_chars_encode_utf8("global"@);
        vstd::utf8::is_ascii_chars_encode_utf8("session"@);
        assert(lower_len_differs("global"@, "session"@));
    }
}

spec fn lower_len_differs(a: Seq<char>, b: Seq<char>) -> bool {
    !lowered_text_is(a, b)
}

#[derive(Debug, Clone, Copy, PartialEq, Eq, Structural)]
pub struct UpstreamCounts {
    pub edge_calls: u64,
    pub cloud_calls: u64,
}

#[derive(Debug, Clone, Copy, PartialEq, Eq, Structural)]
pub struct CascadeCounts {
    pub edge_ok: u64,
    pub fallback_to_cloud: u64,
}

#[derive(Debug, Clone, Copy, PartialEq, Eq, Structural)]
pub struct TokenCounts {
    pub in_estimate: u64,
    pub out_estimate: u64,
    pub cloud_input_saved_estimate: u64,
}

#[derive(Debug, Clone, Copy, PartialEq, Eq, Structural)]
pub struct ErrorCounts {
    pub total: u64,
    pub unauthorized: u64,
    pub unavailable: u64,
    pub upstream: u64,
    pub bad_request: u64,
}

/// The integer sections of a stats snapshot, copied from the counters.
pub fn snapshot_counts(data: &StatsData) -> (r: (UpstreamCounts, CascadeCounts, TokenCounts, ErrorCounts))
    ensures
        r.0 == (UpstreamCounts { edge_calls: data.upstream_edge_calls, cloud_calls: data.upstream_cloud_calls }),
        r.1 == (CascadeCounts { edge_ok: data.cascade_edge_ok, fallback_to_cloud: data.cascade_fallback }),
        r.2 == (TokenCounts {
            in_estimate: data.tokens_in_estimate,
            out_estimate: data.tokens_out_estimate,
            cloud_input_saved_estimate: data.cloud_input_saved_estimate,
        }),
        r.3 == (ErrorCounts {
            total: data.errors_total,
            unauthorized: data.errors_unauthorized,
            unavailable: data.errors_unavailable,
            upstream: data.errors_upstream,
            bad_request: data.errors_bad_request,
        }),
{
    (
        UpstreamCounts { edge_calls: data.upstream_edge_calls, cloud_calls: data.upstream_cloud_calls },
        CascadeCounts { edge_ok: data.cascade_edge_ok, fallback_to_cloud: data.cascade_fallback },
        TokenCounts {
            in_estimate: data.tokens_in_estimate,
            out_estimate: data.tokens_out_estimate,
            cloud_input_saved_estimate: data.cloud_input_saved_estimate,
        },
        ErrorCounts {
            total: data.errors_total,
            unauthorized: data.errors_unauthorized,
            unavailable: data.errors_unavailable,
            upstream: data.errors_upstream,
            bad_request: data.errors_bad_request,
        },
    )
}

} // verus!
