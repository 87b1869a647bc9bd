//! Endpoint election: ranking probe results by liveness and latency.
//!
//! One probe per candidate runs in parallel outside the library; the results
//! arrive here in the candidates' configured order. Ranking partitions them
//! into Healthy and Bad: if any are Healthy the fastest Healthy one wins, and
//! ties break to the earlier position in the configured list; if none are
//! Healthy, the least stale result (smallest server time delta) wins.

use vstd::prelude::*;

verus! {

/// The outcome of probing one candidate endpoint with an
/// `info { version, time, lastBlockTime }` query.
#[derive(Debug, Clone, Copy)]
pub struct ProbeResult {
    /// Whether the probe returned a syntactically valid info payload.
    pub success: bool,
    /// Round-trip duration of the probe, in milliseconds.
    pub latency: u64,
    /// `now_ms() - lastBlockTime` at the moment of the probe; negative when
    /// the server clock runs ahead of the local one.
    pub time_delta: i64,
}

/// The health of an endpoint: unknown before any probe, and after one
/// either Healthy or Bad.
#[derive(Debug, Clone, Copy, PartialEq, Eq, Structural)]
pub enum EndpointState {
    /// The endpoint was not probed yet.
    Unknown,
    /// The last probe returned a valid payload within the latency threshold.
    Healthy,
    /// The last probe failed, or its server time delta was over the
    /// threshold.
    Bad,
}

/// An endpoint is Healthy iff its probe returned a valid payload and its
/// server time delta does not exceed the configured threshold.
pub open spec fn spec_healthy(p: ProbeResult, max_latency: u32) -> bool {
    p.success && p.time_delta <= max_latency as i64
}

/// Classifies one probe result: Healthy exactly when a valid payload
/// arrived whose server time delta is within `max_latency`, Bad otherwise.
pub fn probe_state(p: &ProbeResult, max_latency: u32) -> (s: EndpointState)
    ensures
        s == (if spec_healthy(*p, max_latency) {
            EndpointState::Healthy
        } else {
            EndpointState::Bad
        }),
{
    if p.success && p.time_delta <= max_latency as i64 {
        EndpointState::Healthy
    } else {
        EndpointState::Bad
    }
}

/// Whether any probe in the set is Healthy.
pub open spec fn spec_any_healthy(ps: Seq<ProbeResult>, max_latency: u32) -> bool {
    exists|i: int| 0 <= i < ps.len() && spec_healthy(ps[i], max_latency)
}

/// Whether any probe in the set returned a valid payload at all.
pub open spec fn spec_any_success(ps: Seq<ProbeResult>) -> bool {
    exists|i: int| 0 <= i < ps.len() && ps[i].success
}

/// What a correct election returns on probe set `ps`: `w` is the winning
/// position. Some position wins iff some probe succeeded. If any probe is
/// Healthy, the winner is Healthy with the lowest latency and ties break to
/// the earlier position; otherwise the winner has the smallest server time
/// delta among successful probes, ties again to the earlier position.
pub open spec fn spec_elected_ok(ps: Seq<ProbeResult>, max_latency: u32, w: Option<usize>) -> bool {
    &&& (w is Some <==> spec_any_success(ps))
    &&& match w {
        Option::None => true,
        Option::Some(wi) => {
            &&& wi < ps.len()
            &&& ps[wi as int].success
            &&& if spec_any_healthy(ps, max_latency) {
                &&& spec_healthy(ps[wi as int], max_latency)
                &&& forall|j: int|
                    0 <= j < ps.len() && spec_healthy(ps[j], max_latency) ==> ps[wi as int].latency
                        < ps[j].latency || (ps[wi as int].latency == ps[j].latency && wi <= j)
            } else {
                forall|j: int|
                    0 <= j < ps.len() && ps[j].success ==> ps[wi as int].time_delta < ps[j].time_delta
                        || (ps[wi as int].time_delta == ps[j].time_delta && wi <= j)
            }
        },
    }
}

/// Ranks one election round's probe results and picks the winning position.
pub fn elect(probes: &Vec<ProbeResult>, max_latency: u32) -> (w: Option<usize>)
    ensures
        spec_elected_ok(probes@, max_latency, w),
{
    let n = probes.len();
    let mut best_healthy: Option<usize> = None;
    let mut best_success: Option<usize> = None;
    let mut i: usize = 0;
    while i < n
        invariant
            i <= n == probes@.len(),
            match best_healthy {
                Option::None => forall|k: int|
                    0 <= k < i ==> !spec_healthy(probes@[k], max_latency),
                Option::Some(b) => {
                    &&& b < i
                    &&& spec_healthy(probes@[b as int], max_latency)
                    &&& forall|k: int|
                        0 <= k < i && spec_healthy(probes@[k], max_latency) ==> probes@[b as int].latency
                            < probes@[k].latency || (probes@[b as int].latency
                            == probes@[k].latency && b <= k)
                },
            },
            match best_success {
                Option::None => forall|k: int| 0 <= k < i ==> !probes@[k].success,
                Option::Some(b) => {
                    &&& b < i
                    &&& probes@[b as int].success
                    &&& forall|k: int|
                        0 <= k < i && probes@[k].success ==> probes@[b as int].time_delta
                            < probes@[k].time_delta || (probes@[b as int].time_delta
                            == probes@[k].time_delta && b <= k)
                },
            },
        decreases n - i,
    {
        let p = probes[i];
        if p.success {
            match best_success {
                None => {
                    best_success = Some(i);
                },
                Some(b) => {
                    if p.time_delta < probes[b].time_delta {
                        best_success = Some(i);
                    }
                },
            }
            if p.time_delta <= max_latency as i64 {
                match best_healthy {
                    None => {
                        best_healthy = Some(i);
                    },
                    Some(b) => {
                        if p.latency < probes[b].latency {
                            best_healthy = Some(i);
                        }
                    },
                }
            }
        }
        i += 1;
    }
    match best_healthy {
        Some(b) => Some(b),
        None => best_success,
    }
}

/// Election monotonicity: when exactly one probe is Healthy, that probe wins
/// regardless of the latency order.
pub proof fn lemma_election_monotonicity(
    ps: Seq<ProbeResult>,
    max_latency: u32,
    w: Option<usize>,
    h: int,
)
    requires
        spec_elected_ok(ps, max_latency, w),
        0 <= h < ps.len(),
        spec_healthy(ps[h], max_latency),
        forall|j: int| 0 <= j < ps.len() && j != h ==> !spec_healthy(ps[j], max_latency),
    ensures
        w == Some(h as usize),
{
    assert(spec_any_success(ps));
    let wi = w->Some_0;
    assert(spec_healthy(ps[wi as int], max_latency));
    assert(wi as int == h);
}

/// Fastest among Healthy: whenever at least two probes are Healthy, the
/// winner is Healthy with the smallest round-trip latency, and equal
/// latencies break to the earlier position in the configured list.
pub proof fn lemma_fastest_among_healthy(
    ps: Seq<ProbeResult>,
    max_latency: u32,
    w: Option<usize>,
    a: int,
    b: int,
)
    requires
        spec_elected_ok(ps, max_latency, w),
        0 <= a < ps.len(),
        0 <= b < ps.len(),
        a != b,
        spec_healthy(ps[a], max_latency),
        spec_healthy(ps[b], max_latency),
    ensures
        w is Some,
        spec_healthy(ps[w->Some_0 as int], max_latency),
        forall|j: int|
            0 <= j < ps.len() && spec_healthy(ps[j], max_latency) ==> ps[w->Some_0 as int].latency
                <= ps[j].latency,
        forall|j: int|
            0 <= j < ps.len() && spec_healthy(ps[j], max_latency) && ps[j].latency == ps[w->Some_0 as int].latency ==> w->Some_0 <= j,
{
}

/// Least-stale fallback: when no probe is Healthy but some succeeded, the
/// winner has the smallest server time delta.
pub proof fn lemma_least_stale_fallback(ps: Seq<ProbeResult>, max_latency: u32, w: Option<usize>)
    requires
        spec_elected_ok(ps, max_latency, w),
        !spec_any_healthy(ps, max_latency),
        spec_any_success(ps),
    ensures
        w is Some,
        ps[w->Some_0 as int].success,
        forall|j: int|
            0 <= j < ps.len() && ps[j].success ==> ps[w->Some_0 as int].time_delta
                <= ps[j].time_delta,
{
}

} // verus!
