//! The server link: the elected query endpoint, per-endpoint send stats and
//! the address ordering used by the message sender.
//!
//! The link owns the configured candidate list (never mutated at runtime),
//! the cached election winner (absent while no election has completed or
//! after the cache was invalidated), the per-endpoint failure counters fed by
//! `MessageDelivered` / `MessageUndelivered` events, and the subscription
//! manager with its suspend flag.

use vstd::prelude::*;

use rand::seq::SliceRandom;

use crate::config::NetworkConfig;
use crate::elect::ProbeResult;
use crate::elect::spec_any_success;
use crate::elect::spec_elected_ok;
use crate::endpoint::Endpoint;
use crate::endpoint::spec_normalized_url;
use crate::endpoint::same_endpoint;
use crate::errors::ClientError;
use crate::errors::ErrorKind;
use crate::subs::SubManager;

verus! {

/// A per-URL send statistics event.
#[derive(Debug, Clone, Copy, PartialEq, Eq, Structural)]
pub enum EndpointStat {
    /// A message reached the network through this endpoint.
    MessageDelivered,
    /// A send through this endpoint failed.
    MessageUndelivered,
}

/// The cached winner of the last election.
#[derive(Debug)]
pub struct ElectedEndpoint {
    /// Position of the winner in the configured candidate list.
    pub index: usize,
    /// The winner's resolved descriptor.
    pub endpoint: Endpoint,
    /// When the winning probe was taken, in wall-clock ms.
    pub probed_at: u64,
    /// The winning probe's round-trip duration, ms.
    pub latency: u64,
    /// The winning probe's server time delta, ms.
    pub time_delta: i64,
}

/// The process-wide server link state.
#[derive(Debug)]
pub struct ServerLink {
    /// The configuration snapshot, including the candidate URL list.
    pub config: NetworkConfig,
    /// The cached election winner; `None` while an election is owed.
    pub elected: Option<ElectedEndpoint>,
    /// Per-candidate failure counters, parallel to `config.endpoints`.
    pub fail_counts: Vec<u64>,
    /// The subscription table and the suspend flag.
    pub subs: SubManager,
}

impl ServerLink {
    /// Well-formedness: counters parallel the candidate list, the cached
    /// winner points into it, and the subscription table is well formed.
    pub open spec fn wf(self) -> bool {
        &&& self.config.wf()
        &&& self.fail_counts@.len() == self.config.endpoints@.len()
        &&& self.subs.wf()
        &&& match self.elected {
            Option::None => true,
            Option::Some(e) => {
                &&& e.index < self.config.endpoints@.len()
                &&& e.endpoint.wf()
                &&& e.endpoint.query_url@ == self.config.endpoints@[e.index as int]@
            },
        }
    }

    /// Builds a link over `config`. Fails exactly when the candidate list is
    /// empty or the fan-out width is zero; a fresh link has no elected
    /// endpoint, zeroed failure counters and an empty subscription table.
    pub fn new(config: NetworkConfig) -> (r: Result<ServerLink, ClientError>)
        ensures
            r is Ok <==> config.wf(),
            r matches Result::Ok(l) ==> {
                &&& l.wf()
                &&& l.config == config
                &&& l.elected is None
                &&& !l.subs.suspended
                &&& l.subs.subs@.len() == 0
                &&& forall|i: int| 0 <= i < l.fail_counts@.len() ==> l.fail_counts@[i] == 0
            },
            r matches Result::Err(e) ==> e.kind == ErrorKind::InvalidData,
    {
        if config.endpoints.len() == 0 || config.sending_endpoint_count == 0 {
            return Err(
                ClientError::new(
                    ErrorKind::InvalidData,
                    String::from_str("the endpoint candidate list is empty"),
                ),
            );
        }
        let n = config.endpoints.len();
        let mut counts: Vec<u64> = Vec::new();
        while counts.len() < n
            invariant
                counts@.len() <= n,
                forall|i: int| 0 <= i < counts@.len() ==> counts@[i] == 0,
            decreases n - counts@.len(),
        {
            counts.push(0);
        }
        Ok(ServerLink { config, elected: None, fail_counts: counts, subs: SubManager::new() })
    }

    /// Whether a fresh election round is owed: the cache is empty. Callers
    /// arriving while the cache holds a winner reuse it without re-probing.
    pub fn need_election(&self) -> (r: bool)
        ensures
            r == (self.elected is None),
    {
        match &self.elected {
            None => true,
            Some(_) => false,
        }
    }

    /// Stores the winner of a completed election round whose probe results
    /// arrive in the candidates' configured order, and returns its position.
    /// Fails with a network error exactly when no probe succeeded.
    pub fn complete_election(&mut self, probes: &Vec<ProbeResult>, now: u64) -> (r: Result<
        usize,
        ClientError,
    >)
        requires
            old(self).wf(),
            probes@.len() == old(self).config.endpoints@.len(),
        ensures
            final(self).wf(),
            final(self).config == old(self).config,
            final(self).fail_counts == old(self).fail_counts,
            final(self).subs == old(self).subs,
            r is Ok <==> spec_any_success(probes@),
            r matches Result::Ok(w) ==> {
                &&& spec_elected_ok(probes@, old(self).config.max_latency, Option::Some(w))
                &&& final(self).elected matches Option::Some(e) && e.index == w && e.probed_at
                    == now && e.latency == probes@[w as int].latency && e.time_delta
                    == probes@[w as int].time_delta
            },
            r matches Result::Err(e) ==> e.kind == ErrorKind::NetworkError && final(self).elected
                is None,
    {
        match crate::elect::elect(probes, self.config.max_latency) {
            Some(w) => {
                let p = probes[w];
                let ep = Endpoint::resolve(self.config.endpoints[w].as_str());
                self.elected = Some(
                    ElectedEndpoint {
                        index: w,
                        endpoint: ep,
                        probed_at: now,
                        latency: p.latency,
                        time_delta: p.time_delta,
                    },
                );
                Ok(w)
            },
            None => {
                self.elected = None;
                Err(
                    ClientError::new(
                        ErrorKind::NetworkError,
                        String::from_str("no endpoint answered the election probes"),
                    ),
                )
            },
        }
    }

    /// The cached winner's descriptor, if an election result is cached.
    pub fn get_query_endpoint(&self) -> (r: Option<&Endpoint>)
        ensures
            r is Some <==> self.elected is Some,
            r matches Option::Some(e) ==> *e == self.elected->Some_0.endpoint,
    {
        match &self.elected {
            Some(e) => Some(&e.endpoint),
            None => None,
        }
    }

    /// Whether a latency check should be piggy-backed onto the next query:
    /// a winner is cached and at least `latency_detection_frequency` ms have
    /// passed since its probe.
    pub fn should_check_latency(&self, now: u64) -> (r: bool)
        ensures
            r == (self.elected matches Option::Some(e) && now >= e.probed_at && now - e.probed_at
                >= self.config.latency_detection_frequency),
    {
        match &self.elected {
            Some(e) => now >= e.probed_at && now - e.probed_at
                >= self.config.latency_detection_frequency as u64,
            None => false,
        }
    }

    /// Applies the result of a piggy-backed latency check: a server time
    /// delta over `max_latency` invalidates the cache, so the next query
    /// triggers a fresh election; otherwise the cached winner's stats are
    /// refreshed in place.
    pub fn on_latency_check(&mut self, now: u64, time_delta: i64)
        requires
            old(self).wf(),
        ensures
            final(self).wf(),
            final(self).config == old(self).config,
            final(self).fail_counts == old(self).fail_counts,
            final(self).subs == old(self).subs,
            time_delta > old(self).config.max_latency as i64 || old(self).elected is None
                ==> final(self).elected is None,
            (time_delta <= old(self).config.max_latency as i64 && old(self).elected matches
                Option::Some(e)) ==> (final(self).elected matches Option::Some(f) && f.index
                == old(self).elected->Some_0.index && f.probed_at == now && f.time_delta
                == time_delta && f.latency == old(self).elected->Some_0.latency),
    {
        let (index, latency) = match &self.elected {
            None => {
                return ;
            },
            Some(e) => (e.index, e.latency),
        };
        if time_delta > self.config.max_latency as i64 {
            self.elected = None;
        } else {
            let ep = Endpoint::resolve(self.config.endpoints[index].as_str());
            self.elected = Some(
                ElectedEndpoint { index, endpoint: ep, probed_at: now, latency, time_delta },
            );
        }
    }

    /// Invalidates the cached winner after any transport error, so that the
    /// next attempt re-elects.
    pub fn on_transport_error(&mut self)
        requires
            old(self).wf(),
        ensures
            final(self).wf(),
            final(self).config == old(self).config,
            final(self).fail_counts == old(self).fail_counts,
            final(self).subs == old(self).subs,
            final(self).elected is None,
    {
        self.elected = None;
    }

    /// Whether an ordinary query may proceed right now: calls made during
    /// suspend park until resume.
    pub fn query_allowed(&self) -> (r: bool)
        ensures
            r == !self.subs.suspended,
    {
        !self.subs.suspended
    }

    /// Whether the stat event for `url` touches candidate `i`: their
    /// normalized URLs agree.
    pub open spec fn spec_stat_touches(self, i: int, urls: Seq<String>) -> bool {
        exists|u: int|
            0 <= u < urls.len() && spec_normalized_url(self.config.endpoints@[i]@)
                == spec_normalized_url(urls[u]@)
    }

    /// The new value of one failure counter after a stat event: an
    /// undelivered message raises it (saturating), a delivered one lowers it
    /// to a floor of zero.
    pub open spec fn spec_stat_update(count: u64, stat: EndpointStat) -> u64 {
        match stat {
            EndpointStat::MessageUndelivered => if count < u64::MAX {
                (count + 1) as u64
            } else {
                count
            },
            EndpointStat::MessageDelivered => if count > 0 {
                (count - 1) as u64
            } else {
                0
            },
        }
    }

    /// Records a delivery outcome against every candidate whose normalized
    /// URL matches one of `urls`; all other counters are untouched.
    pub fn update_stat(&mut self, urls: &Vec<String>, stat: EndpointStat)
        requires
            old(self).wf(),
        ensures
            final(self).wf(),
            final(self).config == old(self).config,
            final(self).elected == old(self).elected,
            final(self).subs == old(self).subs,
            final(self).fail_counts@.len() == old(self).fail_counts@.len(),
            forall|i: int|
                0 <= i < final(self).fail_counts@.len() ==> final(self).fail_counts@[i] == (if old(
                    self,
                ).spec_stat_touches(i, urls@) {
                    Self::spec_stat_update(old(self).fail_counts@[i], stat)
                } else {
                    old(self).fail_counts@[i]
                }),
    {
        let n = self.config.endpoints.len();
        let m = urls.len();
        let mut i: usize = 0;
        while i < n
            invariant
                old(self).wf(),
                i <= n,
                n == self.config.endpoints@.len(),
                m == urls@.len(),
                self.config == old(self).config,
                self.elected == old(self).elected,
                self.subs == old(self).subs,
                self.fail_counts@.len() == old(self).fail_counts@.len() == n,
                forall|k: int|
                    i <= k < n ==> self.fail_counts@[k] == old(self).fail_counts@[k],
                forall|k: int|
                    0 <= k < i ==> self.fail_counts@[k] == (if old(self).spec_stat_touches(
                        k,
                        urls@,
                    ) {
                        Self::spec_stat_update(old(self).fail_counts@[k], stat)
                    } else {
                        old(self).fail_counts@[k]
                    }),
            decreases n - i,
        {
            let mut touched = false;
            let mut u: usize = 0;
            while u < m
                invariant
                    old(self).wf(),
                    i < n,
                    u <= m,
                    n == self.config.endpoints@.len(),
                    m == urls@.len(),
                    self.config == old(self).config,
                    touched ==> old(self).spec_stat_touches(i as int, urls@),
                    !touched ==> forall|v: int|
                        0 <= v < u ==> spec_normalized_url(self.config.endpoints@[i as int]@)
                            != spec_normalized_url(urls@[v]@),
                decreases m - u,
            {
                if same_endpoint(self.config.endpoints[i].as_str(), urls[u].as_str()) {
                    touched = true;
                }
                u += 1;
            }
            if touched {
                let c = self.fail_counts[i];
                let updated = match stat {
                    EndpointStat::MessageUndelivered => if c < u64::MAX {
                        c + 1
                    } else {
                        c
                    },
                    EndpointStat::MessageDelivered => if c > 0 {
                        c - 1
                    } else {
                        0
                    },
                };
                self.fail_counts[i] = updated;
            }
            i += 1;
        }
    }

    /// Produces the candidate positions in the order used for sending:
    /// shuffled uniformly at random, then stably ranked by failure count so
    /// that endpoints with undelivered-message history move to the tail.
    pub fn sending_order(&self) -> (ord: Vec<usize>)
        requires
            self.wf(),
        ensures
            spec_sending_order_ok(self.fail_counts@, ord@),
    {
        let n = self.config.endpoints.len();
        let mut idx: Vec<usize> = Vec::new();
        while idx.len() < n
            invariant
                idx@.len() <= n,
                forall|k: int| 0 <= k < idx@.len() ==> idx@[k] == k,
            decreases n - idx@.len(),
        {
            idx.push(idx.len());
        }
        proof {
            assert(idx@ =~= Seq::new(n as nat, |i: int| i as usize));
        }
        shuffle_indices(&mut idx);
        proof {
            broadcast use vstd::seq_lib::group_to_multiset_ensures;

            let base = Seq::new(n as nat, |i: int| i as usize);
            assert(idx@.len() == base.len());
            assert forall|k: int| 0 <= k < idx@.len() implies idx@[k] < n by {
                assert(idx@.to_multiset().count(idx@[k]) > 0) by {
                    assert(idx@.contains(idx@[k]));
                }
                assert(base.contains(idx@[k]));
                let j = choose|j: int| 0 <= j < base.len() && base[j] == idx@[k];
                assert(base[j] == j as usize);
            }
        }
        sort_indices_by_count(&self.fail_counts, idx)
    }

    /// The candidate URL list in sending order: a rearrangement of the
    /// configured endpoints ranked by failure count as `sending_order` says.
    pub fn get_addresses_for_sending(&self) -> (r: Vec<String>)
        requires
            self.wf(),
        ensures
            r@.len() == self.config.endpoints@.len(),
            exists|ord: Seq<usize>|
                {
                    &&& #[trigger] spec_sending_order_ok(self.fail_counts@, ord)
                    &&& r@.len() == ord.len()
                    &&& forall|k: int|
                        0 <= k < r@.len() ==> r@[k]@ == self.config.endpoints@[ord[k] as int]@
                },
    {
        let ord = self.sending_order();
        let n = ord.len();
        let mut r: Vec<String> = Vec::new();
        let mut k: usize = 0;
        while k < n
            invariant
                self.wf(),
                k <= n == ord@.len(),
                spec_sending_order_ok(self.fail_counts@, ord@),
                self.fail_counts@.len() == self.config.endpoints@.len(),
                r@.len() == k,
                forall|q: int| 0 <= q < k ==> r@[q]@ == self.config.endpoints@[ord@[q] as int]@,
            decreases n - k,
        {
            let j = ord[k];
            r.push(self.config.endpoints[j].clone());
            k += 1;
        }
        assert(spec_sending_order_ok(self.fail_counts@, ord@));
        r
    }
}

/// What a correct sending order looks like over the failure counters: a
/// permutation of all candidate positions, ranked by failure count in
/// ascending order.
pub open spec fn spec_sending_order_ok(counts: Seq<u64>, ord: Seq<usize>) -> bool {
    &&& ord.len() == counts.len()
    &&& forall|k: int| 0 <= k < ord.len() ==> ord[k] < counts.len()
    &&& ord.to_multiset() == Seq::new(counts.len(), |i: int| i as usize).to_multiset()
    &&& forall|a: int, b: int|
        0 <= a <= b < ord.len() ==> counts[ord[a] as int] <= counts[ord[b] as int]
}

/// Relies on rand's `SliceRandom::shuffle` with `rand::thread_rng`: the
/// slice is permuted in place by pairwise swaps, so whatever order the
/// generator picks, the vector holds exactly the same indices afterwards.
#[verifier::external_body]
fn shuffle_indices(v: &mut Vec<usize>)
    ensures
        final(v)@.len() == old(v)@.len(),
        final(v)@.to_multiset() == old(v)@.to_multiset(),
{
    v.shuffle(&mut rand::thread_rng());
}

/// Sorts candidate positions by their failure count, ascending, by repeated
/// selection of a minimum; the result holds exactly the given positions.
fn sort_indices_by_count(counts: &Vec<u64>, idx: Vec<usize>) -> (r: Vec<usize>)
    requires
        forall|k: int| 0 <= k < idx@.len() ==> idx@[k] < counts@.len(),
    ensures
        r@.len() == idx@.len(),
        r@.to_multiset() == idx@.to_multiset(),
        forall|k: int| 0 <= k < r@.len() ==> r@[k] < counts@.len(),
        forall|a: int, b: int|
            0 <= a <= b < r@.len() ==> counts@[r@[a] as int] <= counts@[r@[b] as int],
{
    broadcast use vstd::seq_lib::group_to_multiset_ensures;
    broadcast use vstd::multiset::group_multiset_axioms;

    let mut rest = idx;
    let mut out: Vec<usize> = Vec::new();
    while rest.len() > 0
        invariant
            forall|k: int| 0 <= k < rest@.len() ==> rest@[k] < counts@.len(),
            forall|k: int| 0 <= k < out@.len() ==> out@[k] < counts@.len(),
            out@.len() + rest@.len() == idx@.len(),
            out@.to_multiset().add(rest@.to_multiset()) == idx@.to_multiset(),
            forall|a: int, b: int|
                0 <= a <= b < out@.len() ==> counts@[out@[a] as int] <= counts@[out@[b] as int],
            forall|q: int, p: int|
                0 <= q < out@.len() && 0 <= p < rest@.len() ==> counts@[out@[q] as int]
                    <= counts@[rest@[p] as int],
        decreases rest@.len(),
    {
        let m = rest.len();
        let mut best: usize = 0;
        let mut p: usize = 1;
        while p < m
            invariant
                m == rest@.len(),
                best < m,
                p <= m,
                forall|k: int| 0 <= k < rest@.len() ==> rest@[k] < counts@.len(),
                forall|q: int|
                    0 <= q < p ==> counts@[rest@[best as int] as int] <= counts@[rest@[q] as int],
            decreases m - p,
        {
            if counts[rest[p]] < counts[rest[best]] {
                best = p;
            }
            p += 1;
        }
        let ghost old_rest = rest@;
        let ghost old_out = out@;
        let v = rest.remove(best);
        out.push(v);
        proof {
            broadcast use vstd::seq_lib::group_to_multiset_ensures;
            broadcast use vstd::multiset::group_multiset_axioms;

            assert(out@ == old_out.push(v));
            assert(rest@ == old_rest.remove(best as int));
            assert(v == old_rest[best as int]);
            vstd::seq_lib::to_multiset_build::<usize>(old_out, v);
            vstd::seq_lib::to_multiset_remove::<usize>(old_rest, best as int);
            assert(out@.to_multiset() =~= old_out.to_multiset().insert(v));
            assert(rest@.to_multiset() =~= old_rest.to_multiset().remove(v));
            assert(old_rest.to_multiset().count(v) > 0) by {
                assert(old_rest.contains(v));
            }
            assert(out@.to_multiset().add(rest@.to_multiset()) =~= idx@.to_multiset());
            assert forall|q: int, p2: int|
                0 <= q < out@.len() && 0 <= p2 < rest@.len() implies counts@[out@[q] as int]
                <= counts@[rest@[p2] as int] by {
                if p2 < best {
                    assert(rest@[p2] == old_rest[p2]);
                } else {
                    assert(rest@[p2] == old_rest[p2 + 1]);
                }
            }
        }
    }
    out
}

/// A sending order is complete: every candidate position appears in it.
/// Together with the bias law this places every endpoint with a recorded
/// failure behind all of the clean ones.
pub proof fn lemma_sending_order_complete(counts: Seq<u64>, ord: Seq<usize>, i: usize)
    requires
        spec_sending_order_ok(counts, ord),
        (i as int) < counts.len(),
    ensures
        exists|q: int| 0 <= q < ord.len() && ord[q] == i,
{
    broadcast use vstd::seq_lib::group_to_multiset_ensures;

    let base = Seq::new(counts.len(), |k: int| k as usize);
    assert(base[i as int] == i);
    assert(base.contains(i));
    assert(ord.to_multiset().count(i) > 0);
    assert(ord.contains(i));
    let q = choose|q: int| 0 <= q < ord.len() && ord[q] == i;
    assert(ord[q] == i);
}

/// Send bias: in any sending order, an endpoint with a recorded failure
/// stands after every endpoint without one; a matching delivery that clears
/// the counter lifts the bias, since the order constrains equal counts in
/// no way.
pub proof fn lemma_send_bias(counts: Seq<u64>, ord: Seq<usize>, a: int, b: int)
    requires
        spec_sending_order_ok(counts, ord),
        0 <= a < ord.len(),
        0 <= b < ord.len(),
        counts[ord[a] as int] == 0,
        counts[ord[b] as int] > 0,
    ensures
        a < b,
{
    if b <= a {
        assert(counts[ord[b] as int] <= counts[ord[a] as int]);
    }
}

/// The tail placement the bias amounts to: ahead of any endpoint with a
/// recorded failure stands, at its own position, every endpoint without
/// one — so the failed endpoints occupy the order's tail.
pub proof fn lemma_send_bias_tail(counts: Seq<u64>, ord: Seq<usize>, b: int, i: usize)
    requires
        spec_sending_order_ok(counts, ord),
        0 <= b < ord.len(),
        counts[ord[b] as int] > 0,
        (i as int) < counts.len(),
        counts[i as int] == 0,
    ensures
        exists|q: int| 0 <= q < b && ord[q] == i,
{
    lemma_sending_order_complete(counts, ord, i);
    let q = choose|q: int| 0 <= q < ord.len() && ord[q] == i;
    lemma_send_bias(counts, ord, q, b);
    assert(ord[q] == i);
}

} // verus!
