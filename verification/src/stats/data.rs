//! Cumulative traffic counters, as persisted to `stats.json`.
use vstd::prelude::*;

use crate::error::AppError;
use crate::routing::decision::RouteTier;
use crate::routing::step_kind::{step_kind_key, step_kind_key_spec, StepKind};
use crate::text::str_eq;

pub use crate::clock::now_unix;

verus! {

pub const STATS_VERSION: u32 = 1;

/// One per-step-kind counter.
#[derive(Debug, Clone)]
pub struct StepCount {
    pub key: String,
    pub count: u64,
}

/// Cumulative counters persisted to `stats.json`.
#[derive(Debug, Clone)]
pub struct StatsData {
    pub version: u32,
    pub first_record_at_unix: Option<u64>,
    pub last_updated_at_unix: Option<u64>,
    pub requests_total: u64,
    pub requests_stream: u64,
    pub requests_non_stream: u64,
    pub route_edge: u64,
    pub route_cloud: u64,
    pub route_cascade: u64,
    pub upstream_edge_calls: u64,
    pub upstream_cloud_calls: u64,
    pub cascade_edge_ok: u64,
    pub cascade_fallback: u64,
    pub errors_total: u64,
    pub errors_unauthorized: u64,
    pub errors_unavailable: u64,
    pub errors_upstream: u64,
    pub errors_bad_request: u64,
    pub tokens_in_estimate: u64,
    pub tokens_out_estimate: u64,
    pub cloud_input_saved_estimate: u64,
    pub difficulty_sum: u64,
    pub difficulty_count: u64,
    /// Requests per step kind, keyed by `step_kind_key`.
    pub step_kinds: Vec<StepCount>,
}

/// The routing facts of one decision that the counters record. The difficulty
/// is in thousandths, rounded.
#[derive(Debug, Clone, Copy)]
pub struct DecisionRecord {
    pub route: RouteTier,
    pub step_kind: StepKind,
    pub tokens_in_estimate: u32,
    pub cloud_input_saved_estimate: u32,
    pub difficulty_milli: u64,
}

/// The count recorded under `key`: the first entry with that key, or 0.
pub open spec fn count_of(v: Seq<StepCount>, key: Seq<char>) -> u64
    decreases v.len(),
{
    if v.len() == 0 {
        0
    } else if v[0].key@ == key {
        v[0].count
    } else {
        count_of(v.drop_first(), key)
    }
}

/// Index of the first entry with `key`.
pub open spec fn first_index(v: Seq<StepCount>, key: Seq<char>) -> Option<int>
    decreases v.len(),
{
    if v.len() == 0 {
        None
    } else if v[0].key@ == key {
        Some(0)
    } else {
        match first_index(v.drop_first(), key) {
            Some(i) => Some(i + 1),
            None => None,
        }
    }
}

/// Version and timestamps after a write at time `now`.
pub open spec fn stamp(d: StatsData, now: u64) -> StatsData {
    StatsData {
        version: 1,
        first_record_at_unix: match d.first_record_at_unix {
            Some(t) => Some(t),
            None => Some(now),
        },
        last_updated_at_unix: Some(now),
        ..d
    }
}

/// No two step-kind entries share a key, as in a map keyed by step kind.
pub open spec fn step_keys_unique(v: Seq<StepCount>) -> bool {
    forall|i: int, j: int| 0 <= i < j < v.len() ==> (#[trigger] v[i]).key@ != (#[trigger] v[j]).key@
}

/// The counters agree with one another: every request is stream or not, every
/// routed decision has one difficulty sample, the error total covers the
/// classified errors, and each step kind has one entry.
pub open spec fn consistent(d: StatsData) -> bool {
    &&& step_keys_unique(d.step_kinds@)
    &&& d.requests_total == d.requests_stream + d.requests_non_stream
    &&& d.route_edge + d.route_cloud + d.route_cascade == d.difficulty_count
    &&& d.errors_total >= d.errors_unauthorized + d.errors_unavailable + d.errors_upstream
        + d.errors_bad_request
}

pub open spec fn bump_request(d: StatsData, stream: bool) -> StatsData {
    StatsData {
        requests_total: (d.requests_total + 1) as u64,
        requests_stream: if stream {
            (d.requests_stream + 1) as u64
        } else {
            d.requests_stream
        },
        requests_non_stream: if stream {
            d.requests_non_stream
        } else {
            (d.requests_non_stream + 1) as u64
        },
        ..d
    }
}

/// Room left in every counter that recording a request bumps.
pub open spec fn request_fits(d: StatsData, stream: bool) -> bool {
    &&& d.requests_total < u64::MAX
    &&& stream ==> d.requests_stream < u64::MAX
    &&& !stream ==> d.requests_non_stream < u64::MAX
}

/// The counters after a decision, step-kind entries aside.
pub open spec fn bump_decision(d: StatsData, rec: DecisionRecord) -> StatsData {
    StatsData {
        route_edge: if rec.route == RouteTier::Edge {
            (d.route_edge + 1) as u64
        } else {
            d.route_edge
        },
        route_cloud: if rec.route == RouteTier::Cloud {
            (d.route_cloud + 1) as u64
        } else {
            d.route_cloud
        },
        route_cascade: if rec.route == RouteTier::Cascade {
            (d.route_cascade + 1) as u64
        } else {
            d.route_cascade
        },
        tokens_in_estimate: (d.tokens_in_estimate + rec.tokens_in_estimate) as u64,
        cloud_input_saved_estimate: (d.cloud_input_saved_estimate
            + rec.cloud_input_saved_estimate) as u64,
        difficulty_sum: (d.difficulty_sum + rec.difficulty_milli) as u64,
        difficulty_count: (d.difficulty_count + 1) as u64,
        step_kinds: d.step_kinds,
        ..d
    }
}

/// Room left in every counter that recording a decision bumps.
pub open spec fn decision_fits(d: StatsData, rec: DecisionRecord) -> bool {
    &&& rec.route == RouteTier::Edge ==> d.route_edge < u64::MAX
    &&& rec.route == RouteTier::Cloud ==> d.route_cloud < u64::MAX
    &&& rec.route == RouteTier::Cascade ==> d.route_cascade < u64::MAX
    &&& d.tokens_in_estimate + rec.tokens_in_estimate <= u64::MAX
    &&& d.cloud_input_saved_estimate + rec.cloud_input_saved_estimate <= u64::MAX
    &&& d.difficulty_sum + rec.difficulty_milli <= u64::MAX
    &&& d.difficulty_count < u64::MAX
    &&& count_of(d.step_kinds@, step_kind_key_spec(rec.step_kind)) < u64::MAX
}

/// The counter set that an error of this kind bumps besides the total.
pub open spec fn bump_error(d: StatsData, err: AppError) -> StatsData {
    StatsData {
        errors_total: (d.errors_total + 1) as u64,
        errors_unauthorized: if err is Unauthorized {
            (d.errors_unauthorized + 1) as u64
        } else {
            d.errors_unauthorized
        },
        errors_unavailable: if err is Unavailable {
            (d.errors_unavailable + 1) as u64
        } else {
            d.errors_unavailable
        },
        errors_upstream: if err is Upstream {
            (d.errors_upstream + 1) as u64
        } else {
            d.errors_upstream
        },
        errors_bad_request: if err is BadRequest {
            (d.errors_bad_request + 1) as u64
        } else {
            d.errors_bad_request
        },
        ..d
    }
}

pub open spec fn error_fits(d: StatsData, err: AppError) -> bool {
    &&& d.errors_total < u64::MAX
    &&& err is Unauthorized ==> d.errors_unauthorized < u64::MAX
    &&& err is Unavailable ==> d.errors_unavailable < u64::MAX
    &&& err is Upstream ==> d.errors_upstream < u64::MAX
    &&& err is BadRequest ==> d.errors_bad_request < u64::MAX
}

/// The counters after a decision, with the given step-kind entries.
pub open spec fn decided(d: StatsData, now: u64, rec: DecisionRecord, kinds: Vec<StepCount>) -> StatsData {
    StatsData { step_kinds: kinds, ..bump_decision(stamp(d, now), rec) }
}

/// The count under the decision's key went up by one and no other count moved.
pub open spec fn step_count_bumped(old: Seq<StepCount>, new: Seq<StepCount>, key: Seq<char>) -> bool {
    forall|k: Seq<char>|
        count_of(new, k) == if k == key {
            (count_of(old, k) + 1) as u64
        } else {
            count_of(old, k)
        }
}

pub open spec fn added_tokens_out(d: StatsData, n: u32) -> StatsData {
    StatsData { tokens_out_estimate: (d.tokens_out_estimate + n) as u64, ..d }
}

pub open spec fn added_edge_call(d: StatsData) -> StatsData {
    StatsData { upstream_edge_calls: (d.upstream_edge_calls + 1) as u64, ..d }
}

pub open spec fn added_cloud_call(d: StatsData) -> StatsData {
    StatsData { upstream_cloud_calls: (d.upstream_cloud_calls + 1) as u64, ..d }
}

pub open spec fn added_cascade_ok(d: StatsData) -> StatsData {
    StatsData { cascade_edge_ok: (d.cascade_edge_ok + 1) as u64, ..d }
}

pub open spec fn added_cascade_fallback(d: StatsData) -> StatsData {
    StatsData { cascade_fallback: (d.cascade_fallback + 1) as u64, ..d }
}

proof fn lemma_first_index_count(v: Seq<StepCount>, key: Seq<char>)
    ensures
        match first_index(v, key) {
            Some(i) => 0 <= i < v.len() && v[i].key@ == key && count_of(v, key) == v[i].count
                && forall|j: int| 0 <= j < i ==> (#[trigger] v[j]).key@ != key,
            None => count_of(v, key) == 0 && forall|j: int|
                0 <= j < v.len() ==> (#[trigger] v[j]).key@ != key,
        },
    decreases v.len(),
{
    if v.len() > 0 && v[0].key@ != key {
        lemma_first_index_count(v.drop_first(), key);
        match first_index(v.drop_first(), key) {
            Some(i) => {
                assert forall|j: int| 0 <= j < i + 1 implies (#[trigger] v[j]).key@ != key by {
                    if j > 0 {
                        assert(v[j] == v.drop_first()[j - 1]);
                    }
                }
            },
            None => {
                assert forall|j: int| 0 <= j < v.len() implies (#[trigger] v[j]).key@ != key by {
                    if j > 0 {
                        assert(v[j] == v.drop_first()[j - 1]);
                    }
                }
            },
        }
    }
}

/// Replacing the count of the entry at `i`, the first with its key, changes
/// only the count under that key.
proof fn lemma_count_update(v: Seq<StepCount>, i: int, e: StepCount, key: Seq<char>)
    requires
        0 <= i < v.len(),
        e.key@ == v[i].key@,
        forall|j: int| 0 <= j < i ==> (#[trigger] v[j]).key@ != v[i].key@,
    ensures
        count_of(v.update(i, e), key) == if key == v[i].key@ {
            e.count
        } else {
            count_of(v, key)
        },
    decreases v.len(),
{
    assert(v.update(i, e)[0] == if i == 0 { e } else { v[0] });
    if i == 0 {
        assert(v.update(i, e).drop_first() =~= v.drop_first());
    }
    if i > 0 {
        assert forall|j: int| 0 <= j < i - 1 implies (#[trigger] v.drop_first()[j]).key@
            != v.drop_first()[i - 1].key@ by {
            assert(v.drop_first()[j] == v[j + 1]);
        }
        lemma_count_update(v.drop_first(), i - 1, e, key);
        assert(v.update(i, e).drop_first() =~= v.drop_first().update(i - 1, e));
        assert(v[0].key@ != v[i].key@);
    }
}

/// Appending an entry under a key that has none sets only that key's count.
proof fn lemma_count_push(v: Seq<StepCount>, e: StepCount, key: Seq<char>)
    requires
        forall|j: int| 0 <= j < v.len() ==> (#[trigger] v[j]).key@ != e.key@,
    ensures
        count_of(v.push(e), key) == if key == e.key@ {
            e.count
        } else {
            count_of(v, key)
        },
    decreases v.len(),
{
    let w = v.push(e);
    if v.len() == 0 {
        assert(w.drop_first() =~= Seq::<StepCount>::empty());
        assert(w[0] == e);
        assert(count_of(w.drop_first(), key) == 0);
    } else {
        assert(w[0] == v[0]);
        assert(v[0].key@ != e.key@);
        assert forall|j: int| 0 <= j < v.drop_first().len() implies (#[trigger] v.drop_first()[j]).key@
            != e.key@ by {
            assert(v.drop_first()[j] == v[j + 1]);
        }
        lemma_count_push(v.drop_first(), e, key);
        assert(w.drop_first() =~= v.drop_first().push(e));
    }
}

/// Index of the first entry whose key is `key`.
fn find_key(v: &Vec<StepCount>, key: &str) -> (r: Option<usize>)
    ensures
        match r {
            Some(i) => first_index(v@, key@) == Some(i as int),
            None => first_index(v@, key@) is None && forall|j: int|
                0 <= j < v@.len() ==> (#[trigger] v@[j]).key@ != key@,
        },
{
    proof {
        lemma_first_index_count(v@, key@);
    }
    let mut i: usize = 0;
    while i < v.len()
        invariant
            i <= v@.len(),
            forall|j: int| 0 <= j < i ==> (#[trigger] v@[j]).key@ != key@,
            match first_index(v@, key@) {
                Some(k) => 0 <= k < v@.len() && v@[k].key@ == key@ && forall|j: int|
                    0 <= j < k ==> (#[trigger] v@[j]).key@ != key@,
                None => forall|j: int| 0 <= j < v@.len() ==> (#[trigger] v@[j]).key@ != key@,
            },
        decreases v@.len() - i,
    {
        if str_eq(v[i].key.as_str(), key) {
            proof {
                match first_index(v@, key@) {
                    Some(k) => {
                        if k < i {
                            assert(v@[k].key@ != key@);
                        }
                        if k > i {
                            assert(v@[i as int].key@ != key@);
                        }
                    },
                    None => {
                        assert(v@[i as int].key@ != key@);
                    },
                }
            }
            return Some(i);
        }
        i += 1;
    }
    proof {
        if let Some(k) = first_index(v@, key@) {
            assert(v@[k].key@ != key@);
        }
    }
    None
}

/// Adds one to the count under `key`, creating the entry when absent.
fn bump_step_kind(v: &mut Vec<StepCount>, key: String)
    requires
        count_of(old(v)@, key@) < u64::MAX,
    ensures
        step_count_bumped(old(v)@, final(v)@, key@),
        step_keys_unique(old(v)@) ==> step_keys_unique(final(v)@),
{
    proof {
        lemma_first_index_count(v@, key@);
    }
    match find_key(v, key.as_str()) {
        Some(i) => {
            let c = v[i].count + 1;
            let ghost before = v@;
            let k = v[i].key.clone();
            v.set(i, StepCount { key: k, count: c });
            proof {
                assert forall|j: int| 0 <= j < v@.len() implies (#[trigger] v@[j]).key@ == before[j].key@ by {
                    if j == i {
                        assert(v@[j].key@ == k@);
                    }
                }
                assert forall|kk: Seq<char>|
                    count_of(v@, kk) == if kk == key@ {
                        (count_of(before, kk) + 1) as u64
                    } else {
                        count_of(before, kk)
                    } by {
                    lemma_count_update(before, i as int, StepCount { key: k, count: c }, kk);
                    assert(v@ == before.update(i as int, StepCount { key: k, count: c }));
                }
            }
        },
        None => {
            let ghost before = v@;
            let ghost kv = key@;
            v.push(StepCount { key, count: 1 });
            proof {
                assert(v@.last().key@ == kv);
                if step_keys_unique(before) {
                    assert forall|a: int, b: int| 0 <= a < b < v@.len() implies (#[trigger] v@[a]).key@
                        != (#[trigger] v@[b]).key@ by {
                        assert(v@[a] == before[a]);
                        if b == before.len() {
                            assert(v@[b].key@ == kv);
                            assert(before[a].key@ != kv);
                        } else {
                            assert(v@[b] == before[b]);
                        }
                    }
                }
                assert forall|kk: Seq<char>|
                    count_of(v@, kk) == if kk == kv {
                        (count_of(before, kk) + 1) as u64
                    } else {
                        count_of(before, kk)
                    } by {
                    lemma_count_push(before, v@.last(), kk);
                    assert(v@ == before.push(v@.last()));
                }
            }
        },
    }
}

impl StatsData {
    /// All counters zero, no timestamps, no step kinds.
    pub open spec fn is_empty_data(self) -> bool {
        &&& self.version == 0
        &&& self.first_record_at_unix is None
        &&& self.last_updated_at_unix is None
        &&& self.requests_total == 0
        &&& self.requests_stream == 0
        &&& self.requests_non_stream == 0
        &&& self.route_edge == 0
        &&& self.route_cloud == 0
        &&& self.route_cascade == 0
        &&& self.upstream_edge_calls == 0
        &&& self.upstream_cloud_calls == 0
        &&& self.cascade_edge_ok == 0
        &&& self.cascade_fallback == 0
        &&& self.errors_total == 0
        &&& self.errors_unauthorized == 0
        &&& self.errors_unavailable == 0
        &&& self.errors_upstream == 0
        &&& self.errors_bad_request == 0
        &&& self.tokens_in_estimate == 0
        &&& self.tokens_out_estimate == 0
        &&& self.cloud_input_saved_estimate == 0
        &&& self.difficulty_sum == 0
        &&& self.difficulty_count == 0
        &&& self.step_kinds@.len() == 0
    }

    /// Sets the version and timestamps as of time `now`.
    pub fn touch_updated_at(&mut self, now: u64)
        ensures
            *final(self) == stamp(*old(self), now),
    {
        if self.first_record_at_unix.is_none() {
            self.first_record_at_unix = Some(now);
        }
        self.last_updated_at_unix = Some(now);
        self.version = STATS_VERSION;
    }

    /// Sets the version and timestamps as of now.
    pub fn touch_updated(&mut self)
        ensures
            exists|now: u64| *final(self) == stamp(*old(self), now),
    {
        let now = now_unix();
        self.touch_updated_at(now);
    }

    pub fn record_request(&mut self, stream: bool)
        requires
            request_fits(*old(self), stream),
        ensures
            exists|now: u64| *final(self) == bump_request(stamp(*old(self), now), stream),
            consistent(*old(self)) ==> consistent(*final(self)),
    {
        self.touch_updated();
        self.requests_total += 1;
        if stream {
            self.requests_stream += 1;
        } else {
            self.requests_non_stream += 1;
        }
    }

    pub fn record_decision(&mut self, decision: &DecisionRecord)
        requires
            decision_fits(*old(self), *decision),
        ensures
            exists|now: u64|
                *final(self) == decided(*old(self), now, *decision, final(self).step_kinds),
            step_count_bumped(
                old(self).step_kinds@,
                final(self).step_kinds@,
                step_kind_key_spec(decision.step_kind),
            ),
            consistent(*old(self)) ==> consistent(*final(self)),
    {
        let now = now_unix();
        self.touch_updated_at(now);
        match decision.route {
            RouteTier::Edge => self.route_edge += 1,
            RouteTier::Cloud => self.route_cloud += 1,
            RouteTier::Cascade => self.route_cascade += 1,
        }
        self.tokens_in_estimate += decision.tokens_in_estimate as u64;
        self.cloud_input_saved_estimate += decision.cloud_input_saved_estimate as u64;
        self.difficulty_sum += decision.difficulty_milli;
        self.difficulty_count += 1;
        let key = step_kind_key(decision.step_kind);
        bump_step_kind(&mut self.step_kinds, key);
        assert(*self == decided(*old(self), now, *decision, self.step_kinds));
    }

    pub fn record_completion_tokens(&mut self, tokens_out: u32)
        requires
            old(self).tokens_out_estimate + tokens_out <= u64::MAX,
        ensures
            exists|now: u64| *final(self) == added_tokens_out(stamp(*old(self), now), tokens_out),
            consistent(*old(self)) ==> consistent(*final(self)),
    {
        self.touch_updated();
        self.tokens_out_estimate += tokens_out as u64;
    }

    pub fn record_upstream_edge(&mut self)
        requires
            old(self).upstream_edge_calls < u64::MAX,
        ensures
            exists|now: u64| *final(self) == added_edge_call(stamp(*old(self), now)),
            consistent(*old(self)) ==> consistent(*final(self)),
    {
        self.touch_updated();
        self.upstream_edge_calls += 1;
    }

    pub fn record_upstream_cloud(&mut self)
        requires
            old(self).upstream_cloud_calls < u64::MAX,
        ensures
            exists|now: u64| *final(self) == added_cloud_call(stamp(*old(self), now)),
            consistent(*old(self)) ==> consistent(*final(self)),
    {
        self.touch_updated();
        self.upstream_cloud_calls += 1;
    }

    pub fn record_cascade_edge_ok(&mut self)
        requires
            old(self).cascade_edge_ok < u64::MAX,
        ensures
            exists|now: u64| *final(self) == added_cascade_ok(stamp(*old(self), now)),
            consistent(*old(self)) ==> consistent(*final(self)),
    {
        self.touch_updated();
        self.cascade_edge_ok += 1;
    }

    pub fn record_cascade_fallback(&mut self)
        requires
            old(self).cascade_fallback < u64::MAX,
        ensures
            exists|now: u64| *final(self) == added_cascade_fallback(stamp(*old(self), now)),
            consistent(*old(self)) ==> consistent(*final(self)),
    {
        self.touch_updated();
        self.cascade_fallback += 1;
    }

    pub fn record_error(&mut self, err: &AppError)
        requires
            error_fits(*old(self), *err),
        ensures
            exists|now: u64| *final(self) == bump_error(stamp(*old(self), now), *err),
            consistent(*old(self)) ==> consistent(*final(self)),
    {
        self.touch_updated();
        self.errors_total += 1;
        match err {
            AppError::Unauthorized(_) => self.errors_unauthorized += 1,
            AppError::Unavailable(_) => self.errors_unavailable += 1,
            AppError::Upstream(_) => self.errors_upstream += 1,
            AppError::BadRequest(_) => self.errors_bad_request += 1,
            AppError::Internal(_) => {},
        }
    }
}

impl Default for StatsData {
    fn default() -> (r: StatsData)
        ensures
            r.is_empty_data(),
    {
        StatsData {
            version: 0,
            first_record_at_unix: None,
            last_updated_at_unix: None,
            requests_total: 0,
            requests_stream: 0,
            requests_non_stream: 0,
            route_edge: 0,
            route_cloud: 0,
            route_cascade: 0,
            upstream_edge_calls: 0,
            upstream_cloud_calls: 0,
            cascade_edge_ok: 0,
            cascade_fallback: 0,
            errors_total: 0,
            errors_unauthorized: 0,
            errors_unavailable: 0,
            errors_upstream: 0,
            errors_bad_request: 0,
            tokens_in_estimate: 0,
            tokens_out_estimate: 0,
            cloud_input_saved_estimate: 0,
            difficulty_sum: 0,
            difficulty_count: 0,
            step_kinds: Vec::new(),
        }
    }
}

/// Fresh counters are consistent.
pub proof fn lemma_empty_consistent(d: StatsData)
    requires
        d.is_empty_data(),
    ensures
        consistent(d),
{
}

/// Stamping never moves the first-record time once set, and always records the
/// write time as the last update.
pub proof fn lemma_stamp_keeps_first(d: StatsData, now: u64)
    ensures
        d.first_record_at_unix is Some ==> stamp(d, now).first_record_at_unix
            == d.first_record_at_unix,
        stamp(d, now).last_updated_at_unix == Some(now),
        stamp(stamp(d, now), now) == stamp(d, now),
{
}


/// Every counter of `s` is at most the matching counter of `g`, step kinds
/// included: what a session has counted, the global record has counted too.
pub open spec fn counts_within(s: StatsData, g: StatsData) -> bool {
    &&& s.requests_total <= g.requests_total
    &&& s.requests_stream <= g.requests_stream
    &&& s.requests_non_stream <= g.requests_non_stream
    &&& s.route_edge <= g.route_edge
    &&& s.route_cloud <= g.route_cloud
    &&& s.route_cascade <= g.route_cascade
    &&& s.upstream_edge_calls <= g.upstream_edge_calls
    &&& s.upstream_cloud_calls <= g.upstream_cloud_calls
    &&& s.cascade_edge_ok <= g.cascade_edge_ok
    &&& s.cascade_fallback <= g.cascade_fallback
    &&& s.errors_total <= g.errors_total
    &&& s.errors_unauthorized <= g.errors_unauthorized
    &&& s.errors_unavailable <= g.errors_unavailable
    &&& s.errors_upstream <= g.errors_upstream
    &&& s.errors_bad_request <= g.errors_bad_request
    &&& s.tokens_in_estimate <= g.tokens_in_estimate
    &&& s.tokens_out_estimate <= g.tokens_out_estimate
    &&& s.cloud_input_saved_estimate <= g.cloud_input_saved_estimate
    &&& s.difficulty_sum <= g.difficulty_sum
    &&& s.difficulty_count <= g.difficulty_count
    &&& forall|k: Seq<char>| #[trigger] count_of(s.step_kinds@, k) <= count_of(g.step_kinds@, k)
}

/// A fresh session is within any record.
pub proof fn lemma_empty_within(s: StatsData, g: StatsData)
    requires
        s.is_empty_data(),
    ensures
        counts_within(s, g),
{
    assert forall|k: Seq<char>| #[trigger] count_of(s.step_kinds@, k) <= count_of(g.step_kinds@, k) by {
        assert(s.step_kinds@.len() == 0);
    }
}

/// Recording the same request in a session and in the global record, at any
/// two times, keeps the session within the global record; where the global
/// record has room for it, so has the session.
pub proof fn lemma_request_keeps_within(s: StatsData, g: StatsData, stream: bool, t1: u64, t2: u64)
    requires
        counts_within(s, g),
        request_fits(g, stream),
    ensures
        request_fits(s, stream),
        counts_within(bump_request(stamp(s, t1), stream), bump_request(stamp(g, t2), stream)),
{
}

/// Recording the same decision in both keeps the session within the global record.
pub proof fn lemma_decision_keeps_within(
    s: StatsData,
    g: StatsData,
    rec: DecisionRecord,
    t1: u64,
    t2: u64,
    ks: Vec<StepCount>,
    kg: Vec<StepCount>,
)
    requires
        counts_within(s, g),
        decision_fits(g, rec),
        step_count_bumped(s.step_kinds@, ks@, step_kind_key_spec(rec.step_kind)),
        step_count_bumped(g.step_kinds@, kg@, step_kind_key_spec(rec.step_kind)),
    ensures
        decision_fits(s, rec),
        counts_within(decided(s, t1, rec, ks), decided(g, t2, rec, kg)),
{
    let key = step_kind_key_spec(rec.step_kind);
    assert(count_of(s.step_kinds@, key) <= count_of(g.step_kinds@, key));
    assert forall|k: Seq<char>| #[trigger] count_of(ks@, k) <= count_of(kg@, k) by {
        assert(count_of(s.step_kinds@, k) <= count_of(g.step_kinds@, k));
    }
}

/// Recording the same error in both keeps the session within the global record.
pub proof fn lemma_error_keeps_within(s: StatsData, g: StatsData, err: AppError, t1: u64, t2: u64)
    requires
        counts_within(s, g),
        error_fits(g, err),
    ensures
        error_fits(s, err),
        counts_within(bump_error(stamp(s, t1), err), bump_error(stamp(g, t2), err)),
{
}

/// Recording the same completion tokens, upstream call or cascade outcome in
/// both keeps the session within the global record.
pub proof fn lemma_counters_keep_within(s: StatsData, g: StatsData, n: u32, t1: u64, t2: u64)
    requires
        counts_within(s, g),
    ensures
        g.tokens_out_estimate + n <= u64::MAX ==> counts_within(
            added_tokens_out(stamp(s, t1), n),
            added_tokens_out(stamp(g, t2), n),
        ),
        g.upstream_edge_calls < u64::MAX ==> counts_within(
            added_edge_call(stamp(s, t1)),
            added_edge_call(stamp(g, t2)),
        ),
        g.upstream_cloud_calls < u64::MAX ==> counts_within(
            added_cloud_call(stamp(s, t1)),
            added_cloud_call(stamp(g, t2)),
        ),
        g.cascade_edge_ok < u64::MAX ==> counts_within(
            added_cascade_ok(stamp(s, t1)),
            added_cascade_ok(stamp(g, t2)),
        ),
        g.cascade_fallback < u64::MAX ==> counts_within(
            added_cascade_fallback(stamp(s, t1)),
            added_cascade_fallback(stamp(g, t2)),
        ),
{
}

/// The route counter of a tier.
pub open spec fn route_count(d: StatsData, t: RouteTier) -> u64 {
    match t {
        RouteTier::Edge => d.route_edge,
        RouteTier::Cloud => d.route_cloud,
        RouteTier::Cascade => d.route_cascade,
    }
}

/// Recording a decision adds one to the counter of the decision's own tier and
/// leaves the other tiers' counters as they were; the request counters do not
/// move.
pub proof fn lemma_decision_counts_its_tier(
    d: StatsData,
    now: u64,
    rec: DecisionRecord,
    ks: Vec<StepCount>,
    t: RouteTier,
)
    requires
        decision_fits(d, rec),
    ensures
        route_count(decided(d, now, rec, ks), t) == route_count(d, t) + if t == rec.route {
            1int
        } else {
            0int
        },
        decided(d, now, rec, ks).requests_total == d.requests_total,
{
}

/// Recording a request adds one to the total and one to the stream or the
/// non-stream counter, as the request was streamed or not, and to nothing else
/// of the request and route counters.
pub proof fn lemma_request_counts_its_kind(d: StatsData, now: u64, stream: bool)
    requires
        request_fits(d, stream),
    ensures
        bump_request(stamp(d, now), stream).requests_total == d.requests_total + 1,
        bump_request(stamp(d, now), stream).requests_stream == d.requests_stream + if stream {
            1int
        } else {
            0int
        },
        bump_request(stamp(d, now), stream).requests_non_stream == d.requests_non_stream + if stream {
            0int
        } else {
            1int
        },
        forall|t: RouteTier| route_count(bump_request(stamp(d, now), stream), t) == route_count(d, t),
{
}

/// Recording an error adds one to the total and one to the counter of its own
/// kind (an internal error has none), and to no other error counter.
pub proof fn lemma_error_counts_its_kind(d: StatsData, now: u64, err: AppError)
    requires
        error_fits(d, err),
    ensures
        bump_error(stamp(d, now), err).errors_total == d.errors_total + 1,
        bump_error(stamp(d, now), err).errors_unauthorized + bump_error(stamp(d, now), err).errors_unavailable
            + bump_error(stamp(d, now), err).errors_upstream + bump_error(stamp(d, now), err).errors_bad_request
            == d.errors_unauthorized + d.errors_unavailable + d.errors_upstream + d.errors_bad_request + if err
            is Internal {
            0int
        } else {
            1int
        },
        (err matches AppError::Unauthorized(_)) ==> bump_error(stamp(d, now), err).errors_unauthorized
            == d.errors_unauthorized + 1,
        (err matches AppError::Unavailable(_)) ==> bump_error(stamp(d, now), err).errors_unavailable
            == d.errors_unavailable + 1,
        (err matches AppError::Upstream(_)) ==> bump_error(stamp(d, now), err).errors_upstream
            == d.errors_upstream + 1,
        (err matches AppError::BadRequest(_)) ==> bump_error(stamp(d, now), err).errors_bad_request
            == d.errors_bad_request + 1,
{
}

} // verus!
