//! Election, retry, stats and subscription behaviour of the networking core.

use ton_client::config::NetworkConfig;
use ton_client::elect::{elect, probe_state, EndpointState, ProbeResult};
use ton_client::endpoint::{normalize_url, same_endpoint, Endpoint};
use ton_client::errors::{is_retriable, query_failed_message, ErrorKind};
use ton_client::link::{EndpointStat, ServerLink};
use ton_client::query::{run_query, AttemptOutcome};
use ton_client::subs::{delivery_error, Delivery, SubManager};
use std::collections::HashSet;

fn probe(success: bool, latency: u64, time_delta: i64) -> ProbeResult {
    ProbeResult { success, latency, time_delta }
}

fn config(endpoints: &[&str]) -> NetworkConfig {
    let mut c = NetworkConfig::default();
    c.endpoints = endpoints.iter().map(|s| s.to_string()).collect();
    c
}

#[test]
fn normalize_url_strips_scheme_and_suffix() {
    assert_eq!(normalize_url("http://a"), "a");
    assert_eq!(normalize_url("https://x.io/graphql"), "x.io");
    assert_eq!(normalize_url("a/graphql"), "a");
    assert_eq!(normalize_url("a"), "a");
    assert_eq!(normalize_url("https://cinet.tonlabs.io/"), "cinet.tonlabs.io/");
}

#[test]
fn same_endpoint_compares_normalized_forms() {
    assert!(same_endpoint("http://a/graphql", "a"));
    assert!(same_endpoint("https://b", "b/graphql"));
    assert!(!same_endpoint("a", "b"));
}

#[test]
fn endpoint_resolve_keeps_full_url() {
    let e = Endpoint::resolve("https://x.io/graphql");
    assert_eq!(e.query_url, "https://x.io/graphql");
    assert_eq!(e.normalized, "x.io");
}

#[test]
fn election_fastest_wins() {
    // a answers in 200 ms, b in 100 ms, both fresh: b wins.
    let probes = vec![probe(true, 200, 500), probe(true, 100, 500)];
    assert_eq!(elect(&probes, 60000), Some(1));
}

#[test]
fn election_skips_bad_latency() {
    // a is faster but 1500 ms stale with max_latency 1000: b wins.
    let probes = vec![probe(true, 100, 1500), probe(true, 200, 500)];
    assert_eq!(elect(&probes, 1000), Some(1));
}

#[test]
fn election_least_stale_when_all_bad() {
    // nobody is within max_latency: the least stale one wins, not the fastest.
    let probes = vec![probe(true, 200, 1500), probe(true, 100, 2000)];
    assert_eq!(elect(&probes, 1000), Some(0));
}

#[test]
fn election_tie_breaks_to_configured_order() {
    let probes = vec![probe(true, 100, 500), probe(true, 100, 500)];
    assert_eq!(elect(&probes, 60000), Some(0));
}

#[test]
fn probe_state_classification() {
    assert_eq!(probe_state(&probe(true, 100, 500), 1000), EndpointState::Healthy);
    assert_eq!(probe_state(&probe(true, 100, 1500), 1000), EndpointState::Bad);
    assert_eq!(probe_state(&probe(false, 0, 0), 1000), EndpointState::Bad);
    assert_eq!(probe_state(&probe(true, 100, -300), 1000), EndpointState::Healthy);
    assert_ne!(EndpointState::Unknown, probe_state(&probe(true, 1, 1), 1000));
}

#[test]
fn election_fails_without_any_success() {
    let probes = vec![probe(false, 0, 0), probe(false, 0, 0)];
    assert_eq!(elect(&probes, 60000), None);
}

#[test]
fn retry_query_on_network_errors() {
    // two transport failures, then data: the third attempt delivers.
    let outcomes = vec![
        AttemptOutcome::Transport("Can not send http request: Network error".to_string()),
        AttemptOutcome::Transport("Can not send http request: Network error".to_string()),
        AttemptOutcome::Data("{\"data\":{\"blocks\":[{\"id\":\"1\"}]}}".to_string()),
        AttemptOutcome::Data("{\"data\":{\"blocks\":[{\"id\":\"2\"}]}}".to_string()),
    ];
    let (r, attempts) = run_query(&outcomes, 3);
    assert_eq!(r.unwrap(), "{\"data\":{\"blocks\":[{\"id\":\"1\"}]}}");
    assert_eq!(attempts, 3);
}

#[test]
fn querying_endpoint_selection() {
    // Check for the fastest
    let probes = vec![probe(true, 200, 500), probe(true, 100, 500)];
    assert_eq!(elect(&probes, 1000), Some(1));

    // Skip endpoint with bad latency
    let probes = vec![probe(true, 100, 1500), probe(true, 200, 500)];
    assert_eq!(elect(&probes, 1000), Some(1));

    // Select when all have bad latency
    let probes = vec![probe(true, 200, 1500), probe(true, 100, 2000)];
    assert_eq!(elect(&probes, 1000), Some(0));

    // Failed network: retries_count 2 permits 3 attempts, then the terminal
    // message carries the last transport error under the prefix.
    let outcomes = vec![
        AttemptOutcome::Transport("Can not send http request: Network error".to_string()),
        AttemptOutcome::Transport("Can not send http request: Network error".to_string()),
        AttemptOutcome::Transport("Can not send http request: Network error".to_string()),
    ];
    let (r, attempts) = run_query(&outcomes, 2);
    let err = r.unwrap_err();
    assert_eq!(err.kind, ErrorKind::NetworkError);
    assert_eq!(err.message, "Query failed: Can not send http request: Network error");
    assert_eq!(attempts, 3);
}

#[test]
fn logical_errors_propagate_without_retry() {
    let outcomes = vec![
        AttemptOutcome::Logical("{\"errors\":[{\"message\":\"bad query\"}]}".to_string()),
        AttemptOutcome::Data("never reached".to_string()),
    ];
    let (r, attempts) = run_query(&outcomes, 5);
    let err = r.unwrap_err();
    assert_eq!(err.kind, ErrorKind::QueryFailed);
    assert_eq!(attempts, 1);
}

#[test]
fn retriable_kinds() {
    assert!(is_retriable(ErrorKind::NetworkError));
    assert!(is_retriable(ErrorKind::InvalidData));
    assert!(!is_retriable(ErrorKind::QueryFailed));
    assert!(!is_retriable(ErrorKind::MessageAlreadyExpired));
    assert!(!is_retriable(ErrorKind::MessageHasNoDestination));
    assert!(!is_retriable(ErrorKind::FetchFirstBlockFailed));
    assert!(!is_retriable(ErrorKind::BlockNotFound));
    assert!(!is_retriable(ErrorKind::NetworkModuleSuspended));
    assert!(!is_retriable(ErrorKind::NetworkModuleResumed));
}

#[test]
fn query_failed_message_prefix() {
    assert_eq!(
        query_failed_message("Can not send http request: Network error"),
        "Query failed: Can not send http request: Network error"
    );
}

#[test]
fn link_requires_endpoints() {
    let err = ServerLink::new(NetworkConfig::default()).unwrap_err();
    assert_eq!(err.kind, ErrorKind::InvalidData);
    assert!(ServerLink::new(config(&["a"])).is_ok());
}

#[test]
fn link_elects_and_caches() {
    let mut link = ServerLink::new(config(&["a", "b"])).unwrap();
    assert!(link.need_election());
    let probes = vec![probe(true, 200, 500), probe(true, 100, 500)];
    let w = link.complete_election(&probes, 1000).unwrap();
    assert_eq!(w, 1);
    assert!(!link.need_election());
    assert_eq!(link.get_query_endpoint().unwrap().normalized, "b");
}

#[test]
fn link_transport_error_invalidates_cache() {
    let mut link = ServerLink::new(config(&["a"])).unwrap();
    let probes = vec![probe(true, 10, 0)];
    link.complete_election(&probes, 1000).unwrap();
    assert!(!link.need_election());
    link.on_transport_error();
    assert!(link.need_election());
}

#[test]
fn latency_detection_with_queries() {
    // max_latency 600, latency_detection_frequency 100: the election picks
    // a (10 ms vs 20 ms); a query 200 ms later piggy-backs a latency check
    // that reports a 900 ms delta, so the cache is invalidated and the next
    // election picks b.
    let mut c = config(&["a", "b"]);
    c.max_latency = 600;
    c.latency_detection_frequency = 100;
    let mut link = ServerLink::new(c).unwrap();

    let probes = vec![probe(true, 10, 500), probe(true, 20, 500)];
    assert_eq!(link.complete_election(&probes, 1000).unwrap(), 0);
    assert_eq!(link.get_query_endpoint().unwrap().normalized, "a");

    assert!(!link.should_check_latency(1050));
    assert!(link.should_check_latency(1200));
    link.on_latency_check(1200, 900);
    assert!(link.need_election());

    let probes = vec![probe(true, 20, 500), probe(true, 10, 500)];
    assert_eq!(link.complete_election(&probes, 1300).unwrap(), 1);
    assert_eq!(link.get_query_endpoint().unwrap().normalized, "b");
}

#[test]
fn latency_check_within_threshold_refreshes_cache() {
    let mut c = config(&["a"]);
    c.max_latency = 600;
    c.latency_detection_frequency = 100;
    let mut link = ServerLink::new(c).unwrap();
    link.complete_election(&vec![probe(true, 10, 500)], 1000).unwrap();
    link.on_latency_check(1200, 400);
    assert!(!link.need_election());
    assert!(!link.should_check_latency(1250));
}

#[test]
fn message_sending_addresses() {
    let link0 = ServerLink::new(config(&["a", "b", "c", "d", "e", "f", "g", "h"])).unwrap();
    let mut link = link0;
    link.update_stat(
        &vec!["a".to_string(), "e".to_string()],
        EndpointStat::MessageUndelivered,
    );
    let bad: HashSet<_> = vec!["a".to_string(), "e".to_string()].iter().cloned().collect();
    for _ in 0..100 {
        let addresses = link.get_addresses_for_sending();
        let tail: HashSet<_> = addresses[addresses.len() - 2..].iter().cloned().collect();
        assert_eq!(tail, bad);
    }
    link.update_stat(
        &vec!["a".to_string(), "e".to_string()],
        EndpointStat::MessageDelivered,
    );
    let mut a_good = false;
    let mut e_good = false;
    for _ in 0..100 {
        let addresses = link.get_addresses_for_sending();
        let tail: HashSet<_> = addresses[addresses.len() - 2..].iter().cloned().collect();
        if !tail.contains("a") {
            a_good = true;
        }
        if !tail.contains("e") {
            e_good = true;
        }
    }
    assert!(a_good && e_good)
}

#[test]
fn update_stat_matches_normalized_urls() {
    let mut link = ServerLink::new(config(&["http://a/graphql", "b"])).unwrap();
    link.update_stat(&vec!["a".to_string()], EndpointStat::MessageUndelivered);
    assert_eq!(link.fail_counts, vec![1, 0]);
    link.update_stat(&vec!["a".to_string()], EndpointStat::MessageUndelivered);
    assert_eq!(link.fail_counts, vec![2, 0]);
    link.update_stat(&vec!["a".to_string(), "b".to_string()], EndpointStat::MessageDelivered);
    assert_eq!(link.fail_counts, vec![1, 0]);
}

#[test]
fn subscription_suspend_resume() {
    // One subscription; one real event, a suspend cycle that withholds one
    // event, and a third event after resume. Tally: two real deliveries,
    // one suspended notification, one resumed notification.
    let mut m = SubManager::new();
    let (h, notice) = m.subscribe(
        "transactions".to_string(),
        "{\"account_addr\":{\"eq\":\"X\"}}".to_string(),
        "id account_addr".to_string(),
    );
    assert!(notice.is_none());

    let mut real = 0;
    let mut suspended_notices = 0;
    let mut resumed_notices = 0;

    if m.on_frame(h, "tx1".to_string()).is_some() {
        real += 1;
    }
    for d in m.suspend() {
        match d {
            Delivery::Suspended(x) => {
                assert_eq!(x, h);
                suspended_notices += 1;
            }
            _ => panic!("unexpected delivery"),
        }
    }
    if m.on_frame(h, "tx2".to_string()).is_some() {
        real += 1;
    }
    for d in m.resume() {
        match d {
            Delivery::Resumed(x) => {
                assert_eq!(x, h);
                resumed_notices += 1;
            }
            _ => panic!("unexpected delivery"),
        }
    }
    if m.on_frame(h, "tx3".to_string()).is_some() {
        real += 1;
    }

    assert_eq!(real, 2);
    assert_eq!(suspended_notices, 1);
    assert_eq!(resumed_notices, 1);
}

#[test]
fn subscribe_while_suspended_notifies_at_once() {
    // As in a suspend cycle with a second subscription created in the
    // middle: both sinks have seen exactly one suspension notification.
    let mut m = SubManager::new();
    let (h1, n1) = m.subscribe("transactions".to_string(), "f".to_string(), "id".to_string());
    assert!(n1.is_none());
    let ns = m.suspend();
    assert_eq!(ns.len(), 1);
    let (h2, n2) = m.subscribe("transactions".to_string(), "f".to_string(), "id".to_string());
    assert!(matches!(n2, Some(Delivery::Suspended(x)) if x == h2));
    assert_ne!(h1, h2);
    // both frames are withheld while suspended
    assert!(m.on_frame(h1, "tx".to_string()).is_none());
    assert!(m.on_frame(h2, "tx".to_string()).is_none());
    // resume notifies both, exactly once each
    let ns = m.resume();
    assert_eq!(ns.len(), 2);
    assert!(matches!(ns[0], Delivery::Resumed(x) if x == h1));
    assert!(matches!(ns[1], Delivery::Resumed(x) if x == h2));
}

#[test]
fn suspend_twice_notifies_once() {
    let mut m = SubManager::new();
    m.subscribe("messages".to_string(), "f".to_string(), "id".to_string());
    assert_eq!(m.suspend().len(), 1);
    assert_eq!(m.suspend().len(), 0);
    assert_eq!(m.resume().len(), 1);
    assert_eq!(m.resume().len(), 0);
}

#[test]
fn frames_are_delivered_in_arrival_order() {
    let mut m = SubManager::new();
    let (h1, _) = m.subscribe("transactions".to_string(), "f".to_string(), "id".to_string());
    let (h2, _) = m.subscribe("messages".to_string(), "g".to_string(), "id".to_string());
    let frames = vec![
        (h1, "t1".to_string()),
        (h2, "m1".to_string()),
        (999u64, "dropped".to_string()),
        (h1, "t2".to_string()),
    ];
    let ds = m.process_frames(&frames);
    assert_eq!(ds.len(), 3);
    assert!(matches!(&ds[0], Delivery::Event(h, p) if *h == h1 && p == "t1"));
    assert!(matches!(&ds[1], Delivery::Event(h, p) if *h == h2 && p == "m1"));
    assert!(matches!(&ds[2], Delivery::Event(h, p) if *h == h1 && p == "t2"));
    // while suspended, the same batch is discarded wholesale
    m.suspend();
    assert!(m.process_frames(&frames).is_empty());
}

#[test]
fn unsubscribe_is_idempotent() {
    let mut m = SubManager::new();
    let (h, _) = m.subscribe("messages".to_string(), "f".to_string(), "id".to_string());
    assert!(m.on_frame(h, "x".to_string()).is_some());
    m.unsubscribe(h);
    assert!(m.on_frame(h, "x".to_string()).is_none());
    m.unsubscribe(h);
    assert!(m.on_frame(h, "x".to_string()).is_none());
}

#[test]
fn lifecycle_notifications_are_error_values() {
    let e = delivery_error(&Delivery::Suspended(1)).unwrap();
    assert_eq!(e.kind, ErrorKind::NetworkModuleSuspended);
    assert_eq!(e.message, "Network module is suspended");
    let e = delivery_error(&Delivery::Resumed(1)).unwrap();
    assert_eq!(e.kind, ErrorKind::NetworkModuleResumed);
    assert_eq!(e.message, "Network module is resumed");
    assert!(delivery_error(&Delivery::Event(1, "x".to_string())).is_none());
}

#[test]
fn query_parks_while_suspended() {
    let mut link = ServerLink::new(config(&["a"])).unwrap();
    assert!(link.query_allowed());
    link.subs.suspend();
    assert!(!link.query_allowed());
    link.subs.resume();
    assert!(link.query_allowed());
}

#[test]
fn config_defaults() {
    let c = NetworkConfig::default();
    assert_eq!(c.network_retries_count, 5);
    assert_eq!(c.max_latency, 60000);
    assert_eq!(c.latency_detection_frequency, 60000);
    assert_eq!(c.sending_endpoint_count, 2);
    assert_eq!(c.query_timeout, 60000);
    assert!(c.endpoints.is_empty());
    assert_eq!(c.probe_timeout(), 120000);
}
