//! Configuration snapshot of the networking client.

use vstd::prelude::*;

verus! {

/// The recognized network options. The candidate list `endpoints` is fixed at
/// construction and never mutated at runtime; only per-endpoint stats change.
#[derive(Debug, Clone)]
pub struct NetworkConfig {
    /// Candidate URL list; at least one entry is required for a working link.
    pub endpoints: Vec<String>,
    /// Max transport-error retries per query; N permits N + 1 total attempts.
    pub network_retries_count: u32,
    /// Server-time-delta threshold (ms) above which an endpoint is Bad.
    pub max_latency: u32,
    /// How often (ms) to piggy-back latency checks onto queries.
    pub latency_detection_frequency: u32,
    /// Width of the send fan-out chunk.
    pub sending_endpoint_count: u8,
    /// Per-attempt query deadline (ms).
    pub query_timeout: u32,
}

impl NetworkConfig {
    /// A configuration the client can operate on: a non-empty candidate list
    /// and a positive fan-out width.
    pub open spec fn wf(self) -> bool {
        &&& self.endpoints@.len() > 0
        &&& self.sending_endpoint_count >= 1
    }

    /// The timeout of one election probe: twice the tolerated latency.
    pub fn probe_timeout(&self) -> (r: u64)
        ensures
            r == 2 * self.max_latency,
    {
        2 * (self.max_latency as u64)
    }
}

impl Default for NetworkConfig {
    /// The documented defaults: 5 retries, 60 000 ms latency threshold and
    /// detection frequency, fan-out width 2, 60 000 ms query timeout, and an
    /// empty candidate list (endpoints must be supplied before use).
    fn default() -> (r: NetworkConfig)
        ensures
            r.endpoints@.len() == 0,
            r.network_retries_count == 5,
            r.max_latency == 60000,
            r.latency_detection_frequency == 60000,
            r.sending_endpoint_count == 2,
            r.query_timeout == 60000,
    {
        NetworkConfig {
            endpoints: Vec::new(),
            network_retries_count: 5,
            max_latency: 60000,
            latency_detection_frequency: 60000,
            sending_endpoint_count: 2,
            query_timeout: 60000,
        }
    }
}

} // verus!
