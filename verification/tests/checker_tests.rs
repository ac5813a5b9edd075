use std::sync::Arc;

use load_balancer::background_health_checker::timed_background_health_checker::{
    classify_probe, healthy_after_cycle, ProbeFailure, ProbeOutcome, TimedBackgroundChecker,
};
use load_balancer::healthy_set::HealthySet;
use load_balancer::http_client::error::Error;
use load_balancer::select_server_service::round_robin_select_server_service::RoundRobinSelectServerService;
use load_balancer::select_server_service::select_server_service::SelectServerService;
use load_balancer::select_server_service::select_server_service_error::SelectServerServiceError;
use load_balancer::http_client::request::RequestHeaders;
use load_balancer::route::forward::upstream_response;
use load_balancer::select_server_service::select_server_service_request::SelectServerServiceRequest;

fn make_checker(servers: Vec<String>) -> TimedBackgroundChecker {
    TimedBackgroundChecker::new(servers, "/health".to_string(), 10)
}

#[test]
fn status_200_is_the_only_healthy_probe() {
    assert_eq!(classify_probe(&Ok(200)), ProbeOutcome::Healthy);
    assert_eq!(
        classify_probe(&Ok(503)),
        ProbeOutcome::Unhealthy(ProbeFailure::NonOkStatus(503))
    );
    assert_eq!(
        classify_probe(&Ok(301)),
        ProbeOutcome::Unhealthy(ProbeFailure::NonOkStatus(301))
    );
    assert_eq!(
        classify_probe(&Err(Error::Timeout)),
        ProbeOutcome::Unhealthy(ProbeFailure::Timeout)
    );
    assert_eq!(
        classify_probe(&Err(Error::Network("connection refused".to_string()))),
        ProbeOutcome::Unhealthy(ProbeFailure::NetworkError)
    );
    assert_eq!(
        classify_probe(&Err(Error::InvalidRequest("bad url".to_string()))),
        ProbeOutcome::Unhealthy(ProbeFailure::NetworkError)
    );
}

#[test]
fn healthy_list_keeps_configured_order() {
    let servers = vec![
        String::from("http://a"),
        String::from("http://b"),
        String::from("http://c"),
    ];
    let outcomes = vec![
        ProbeOutcome::Healthy,
        ProbeOutcome::Unhealthy(ProbeFailure::NonOkStatus(500)),
        ProbeOutcome::Healthy,
    ];

    let healthy = healthy_after_cycle(&servers, &outcomes);

    assert_eq!(healthy, vec![String::from("http://a"), String::from("http://c")]);
}

#[test]
fn should_call_the_correct_health_endpoint() {
    let checker = make_checker(vec![String::from("http://server1")]);

    assert_eq!(checker.probe_url(0), "http://server1/health");
}

#[test]
fn all_servers_start_out_healthy() {
    let servers = vec![String::from("http://server1"), String::from("http://server2")];
    let checker = make_checker(servers.clone());

    let snapshot = checker.get_healthy_servers().snapshot();
    assert_eq!(snapshot, servers);
}

#[test]
fn all_healthy_round_robin_hits_targets_in_order() {
    // Three targets, all probing healthy: three consecutive selections hit
    // them in configured order, and each forwarded answer mirrors the
    // upstream's status and body.
    let targets = vec![
        String::from("http://a"),
        String::from("http://b"),
        String::from("http://c"),
    ];
    let checker = make_checker(targets.clone());
    let service = RoundRobinSelectServerService::new(checker.get_healthy_servers());

    let outcomes: Vec<ProbeOutcome> =
        (0..3).map(|_| classify_probe(&Ok(200))).collect();
    let stored = checker.apply_cycle(&outcomes);
    assert_eq!(stored, targets);

    for expected in &targets {
        let selected = service.execute(SelectServerServiceRequest {}).unwrap().server;
        assert_eq!(&selected, expected);
    }

    let mirrored = upstream_response(201, RequestHeaders::default(), b"created".to_vec());
    assert_eq!(mirrored.status, 201);
    assert_eq!(mirrored.body, b"created".to_vec());
}

#[test]
fn unhealthy_servers_leave_the_set_and_recover() {
    // Two targets; the second goes down for one cycle and then recovers.
    let server_a = String::from("http://a");
    let server_b = String::from("http://b");
    let checker = make_checker(vec![server_a.clone(), server_b.clone()]);
    let healthy = checker.get_healthy_servers();
    let service = RoundRobinSelectServerService::new(checker.get_healthy_servers());

    let stored = checker.apply_cycle(&vec![
        classify_probe(&Ok(200)),
        classify_probe(&Ok(200)),
    ]);
    assert_eq!(stored, vec![server_a.clone(), server_b.clone()]);
    let first = service.execute(SelectServerServiceRequest {}).unwrap().server;
    let second = service.execute(SelectServerServiceRequest {}).unwrap().server;
    assert_eq!(first, server_a);
    assert_eq!(second, server_b);

    let stored = checker.apply_cycle(&vec![
        classify_probe(&Ok(200)),
        classify_probe(&Ok(503)),
    ]);
    assert_eq!(stored, vec![server_a.clone()]);
    for _ in 0..3 {
        let selected = service.execute(SelectServerServiceRequest {}).unwrap().server;
        assert_eq!(selected, server_a);
    }

    let stored = checker.apply_cycle(&vec![
        classify_probe(&Ok(200)),
        classify_probe(&Ok(200)),
    ]);
    assert_eq!(stored, vec![server_a.clone(), server_b.clone()]);
    let first = service.execute(SelectServerServiceRequest {}).unwrap().server;
    let second = service.execute(SelectServerServiceRequest {}).unwrap().server;
    assert_ne!(first, second);

    let snapshot = healthy.snapshot();
    assert_eq!(snapshot, vec![server_a, server_b]);
}

#[test]
fn connect_error_empties_the_set_and_selection_fails() {
    let checker = make_checker(vec![String::from("http://a")]);
    let service = RoundRobinSelectServerService::new(checker.get_healthy_servers());

    let outcome = classify_probe(&Err(Error::Network("connection refused".to_string())));
    let stored = checker.apply_cycle(&vec![outcome]);

    assert!(stored.is_empty());
    let error = service.execute(SelectServerServiceRequest {}).err().unwrap();
    assert_eq!(error, SelectServerServiceError::NoOneIsAlive);
    assert_eq!(
        load_balancer::route::forward::selection_error_status(&error),
        503
    );
}

#[test]
fn snapshot_stays_within_configured_targets() {
    let servers = vec![
        String::from("http://a"),
        String::from("http://b"),
        String::from("http://c"),
    ];
    let checker = make_checker(servers.clone());

    let cycles = vec![
        vec![Ok(200), Ok(500), Err(Error::Timeout)],
        vec![Err(Error::Network("down".to_string())), Ok(200), Ok(200)],
        vec![Ok(301), Ok(404), Ok(418)],
    ];
    for cycle in &cycles {
        let outcomes: Vec<ProbeOutcome> = cycle.iter().map(classify_probe).collect();
        checker.apply_cycle(&outcomes);
        let snapshot = checker.get_healthy_servers().snapshot();
        for server in &snapshot {
            assert!(servers.contains(server));
        }
    }
}

#[test]
fn empty_server_list() {
    let checker = make_checker(Vec::new());

    assert_eq!(checker.server_count(), 0);
    let healthy = checker.get_healthy_servers().snapshot();
    assert_eq!(healthy.len(), 0);
}

#[test]
fn replacing_with_the_same_list_changes_nothing() {
    let server_a = String::from("http://a");
    let server_b = String::from("http://b");
    let set = Arc::new(HealthySet::new(vec![server_a.clone(), server_b.clone()]));

    set.replace(vec![server_a.clone()]);
    let first = set.snapshot();
    set.replace(vec![server_a.clone()]);
    let second = set.snapshot();

    assert_eq!(first, vec![server_a]);
    assert_eq!(first, second);
}
