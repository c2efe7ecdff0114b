use free_todo::backend_support::{
    backend_port_range, check_backend_health, detect_running, detect_running_backend_port,
    health_url, identify, is_lifetrace_backend, mode_mismatch, pick_backend_port, pick_free_port, probe,
    startup_timeout_message,
    verify_backend_mode, wait_for_backend, DetectScan, HealthReply, HealthReport, PortPick,
    ProbeOutcome, WaitStep, BACKEND_APP_NAME, HEALTH_PATH, RANDOM_ATTEMPTS,
};
use free_todo::config::ServerMode;

fn reply(status: u16, app: Option<&str>, mode: Option<&str>) -> HealthReply {
    HealthReply {
        status,
        report: Some(HealthReport {
            app: app.map(|s| s.to_string()),
            server_mode: mode.map(|s| s.to_string()),
        }),
    }
}

/// Runs a scan to its end over the answers of the ports, lowest port first.
fn run_scan(start: u16, end: u16, answers: &[Option<HealthReply>]) -> (Option<u16>, Vec<u16>) {
    let mut scan = DetectScan::new(start, end);
    let mut probed = Vec::new();
    while let Some(port) = scan.candidate() {
        probed.push(port);
        let answer = answers[(port - start) as usize].as_ref();
        if let Some(found) = scan.observe(answer) {
            return (Some(found), probed);
        }
    }
    (None, probed)
}

#[test]
fn scenario_detection_skips_the_foreign_service() {
    let answers = vec![
        Some(reply(200, Some("someone-else"), None)),
        None,
        Some(reply(200, Some("lifetrace"), Some("dev"))),
    ];
    let (found, probed) = run_scan(8001, 8003, &answers);
    assert_eq!(found, Some(8003));
    assert_eq!(probed, vec![8001, 8002, 8003]);
}

#[test]
fn lowest_of_two_backends_is_adopted() {
    let answers = vec![
        None,
        Some(reply(200, Some("lifetrace"), Some("dev"))),
        None,
        Some(reply(200, Some("lifetrace"), Some("build"))),
    ];
    let (found, probed) = run_scan(8001, 8004, &answers);
    assert_eq!(found, Some(8002));
    assert_eq!(probed, vec![8001, 8002]);
}

#[test]
fn scan_without_a_backend_finds_nothing() {
    let answers = vec![None, Some(reply(500, Some("lifetrace"), None)), None];
    let (found, probed) = run_scan(9000, 9002, &answers);
    assert_eq!(found, None);
    assert_eq!(probed, vec![9000, 9001, 9002]);
}

#[test]
fn scan_is_over_after_a_find() {
    let mut scan = DetectScan::new(8001, 8003);
    assert_eq!(scan.candidate(), Some(8001));
    let found = scan.observe(Some(&reply(200, Some("lifetrace"), None)));
    assert_eq!(found, Some(8001));
    assert_eq!(scan.candidate(), None);
    assert_eq!(scan.observe(Some(&reply(200, Some("lifetrace"), None))), None);
    assert_eq!(scan.candidate(), None);
}

#[test]
fn scan_reaches_the_last_port_number() {
    let mut scan = DetectScan::new(65535, 65535);
    assert_eq!(scan.candidate(), Some(65535));
    assert_eq!(scan.observe(None), None);
    assert_eq!(scan.candidate(), None);
}

#[test]
fn scan_of_an_empty_range_has_no_candidate() {
    let mut scan = DetectScan::new(9000, 8999);
    assert_eq!(scan.candidate(), None);
    assert_eq!(scan.observe(Some(&reply(200, Some("lifetrace"), None))), None);
}

#[test]
fn scan_of_a_mode_covers_its_range() {
    let scan = detect_running_backend_port(ServerMode::Dev);
    assert_eq!(scan, DetectScan { next: 8001, end: 8099 });
    let scan = detect_running_backend_port(ServerMode::Build);
    assert_eq!(scan, DetectScan { next: 8100, end: 8199 });
}

#[test]
fn ranges_of_the_modes() {
    assert_eq!(backend_port_range(ServerMode::Dev), (8001, 8099));
    assert_eq!(backend_port_range(ServerMode::Build), (8100, 8199));
}

#[test]
fn probe_outcomes() {
    assert_eq!(probe(None), ProbeOutcome::Unreachable);
    assert_eq!(probe(Some(&reply(200, None, None))), ProbeOutcome::ReachableHealthy);
    assert_eq!(probe(Some(&reply(299, None, None))), ProbeOutcome::ReachableHealthy);
    assert_eq!(probe(Some(&reply(199, None, None))), ProbeOutcome::ReachableUnhealthy);
    assert_eq!(probe(Some(&reply(300, None, None))), ProbeOutcome::ReachableUnhealthy);
    assert_eq!(probe(Some(&reply(503, None, None))), ProbeOutcome::ReachableUnhealthy);
    let unread = HealthReply { status: 204, report: None };
    assert_eq!(probe(Some(&unread)), ProbeOutcome::ReachableHealthy);
}

#[test]
fn health_is_the_success_range() {
    assert!(!check_backend_health(None));
    assert!(check_backend_health(Some(&reply(200, None, None))));
    assert!(check_backend_health(Some(&HealthReply { status: 250, report: None })));
    assert!(!check_backend_health(Some(&reply(404, Some("lifetrace"), None))));
}

#[test]
fn identify_needs_health_and_a_readable_body() {
    assert!(identify(None).is_none());
    assert!(identify(Some(&HealthReply { status: 200, report: None })).is_none());
    assert!(identify(Some(&reply(500, Some("lifetrace"), None))).is_none());
    let good = reply(200, Some("lifetrace"), Some("dev"));
    let report = identify(Some(&good)).unwrap();
    assert_eq!(report.app.as_deref(), Some("lifetrace"));
    assert_eq!(report.server_mode.as_deref(), Some("dev"));
}

#[test]
fn backend_identity() {
    assert_eq!(BACKEND_APP_NAME, "lifetrace");
    assert!(is_lifetrace_backend(Some(&reply(200, Some("lifetrace"), None))));
    assert!(!is_lifetrace_backend(Some(&reply(200, Some("LifeTrace"), None))));
    assert!(!is_lifetrace_backend(Some(&reply(200, Some("lifetrace2"), None))));
    assert!(!is_lifetrace_backend(Some(&reply(200, Some(""), None))));
    assert!(!is_lifetrace_backend(Some(&reply(200, None, Some("dev")))));
    assert!(!is_lifetrace_backend(Some(&reply(503, Some("lifetrace"), None))));
    assert!(!is_lifetrace_backend(Some(&HealthReply { status: 200, report: None })));
    assert!(!is_lifetrace_backend(None));
}

#[test]
fn identity_check_of_a_new_backend() {
    let good = reply(200, Some("lifetrace"), Some("dev"));
    assert_eq!(verify_backend_mode(8001, "dev", Some(&good)), Ok(true));
    assert_eq!(verify_backend_mode(8001, "build", Some(&good)), Ok(false));
    let silent = reply(200, Some("lifetrace"), None);
    assert_eq!(verify_backend_mode(8001, "dev", Some(&silent)), Ok(true));
    assert_eq!(verify_backend_mode(8001, "dev", None), Ok(true));
    // The status plays no part: a report that names the backend decides.
    let failing = reply(500, Some("lifetrace"), Some("dev"));
    assert_eq!(verify_backend_mode(8001, "dev", Some(&failing)), Ok(true));

    // An answer whose body cannot be read does not identify the backend.
    let unread = HealthReply { status: 200, report: None };
    assert_eq!(
        verify_backend_mode(8001, "dev", Some(&unread)),
        Err("Backend at port 8001 is not a LifeTrace server".to_string())
    );
    let unread_failing = HealthReply { status: 503, report: None };
    assert_eq!(
        verify_backend_mode(8099, "build", Some(&unread_failing)),
        Err("Backend at port 8099 is not a LifeTrace server".to_string())
    );

    let foreign = reply(200, Some("nginx"), Some("dev"));
    assert_eq!(
        verify_backend_mode(8042, "dev", Some(&foreign)),
        Err("Backend at port 8042 is not a LifeTrace server".to_string())
    );
    let nameless = reply(200, None, Some("dev"));
    assert_eq!(
        verify_backend_mode(65535, "dev", Some(&nameless)),
        Err("Backend at port 65535 is not a LifeTrace server".to_string())
    );
}

#[test]
fn mode_mismatch_is_a_different_declared_mode() {
    let report = HealthReport { app: None, server_mode: Some("dev".to_string()) };
    assert!(!mode_mismatch(&report, "dev"));
    assert!(mode_mismatch(&report, "build"));
    let silent = HealthReport { app: None, server_mode: None };
    assert!(!mode_mismatch(&silent, "dev"));
}

#[test]
fn random_candidates_lie_in_the_range_and_vary() {
    let mut seen = std::collections::BTreeSet::new();
    for _ in 0..40 {
        let mut pick = PortPick::new(8001, 8099);
        for left in (0..RANDOM_ATTEMPTS).rev() {
            let port = pick.next_candidate().unwrap();
            assert!((8001..=8099).contains(&port));
            assert_eq!(pick.draws_left, left);
            assert_eq!(pick.scan_next, 8001);
            seen.insert(port);
        }
    }
    assert!(seen.len() > 1);
}

#[test]
fn ordered_scan_follows_the_draws() {
    let mut pick = PortPick::new(8001, 8004);
    for _ in 0..10 {
        assert!(pick.next_candidate().is_some());
    }
    assert_eq!(pick.draws_left, 0);
    assert_eq!(pick.next_candidate(), Some(8001));
    assert_eq!(pick.next_candidate(), Some(8002));
    assert_eq!(pick.next_candidate(), Some(8003));
    assert_eq!(pick.next_candidate(), Some(8004));
    assert_eq!(pick.next_candidate(), None);
    assert_eq!(pick.next_candidate(), None);
    assert_eq!(pick.exhausted_message(), "No available backend port in range 8001-8004");
}

#[test]
fn candidate_for_a_given_draw() {
    let mut pick = PortPick::new(8001, 8002);
    for draw in [8002u16, 8001, 8002, 8002, 8001, 8001, 8002, 8001, 8002, 8002] {
        assert_eq!(pick.candidate_for(draw), Some(draw));
    }
    assert_eq!(pick.candidate_for(8002), Some(8001));
    assert_eq!(pick.candidate_for(8002), Some(8002));
    assert_eq!(pick.candidate_for(8002), None);
}

#[test]
fn search_finds_the_one_free_port() {
    // Only 8003 can be bound: the draws may or may not hit it, the scan will.
    for _ in 0..20 {
        let mut pick = PortPick::new(8001, 8005);
        let mut found = None;
        let mut tries = 0;
        while let Some(port) = pick.next_candidate() {
            tries += 1;
            if port == 8003 {
                found = Some(port);
                break;
            }
        }
        assert_eq!(found, Some(8003));
        assert!(tries <= 13);
    }
}

#[test]
fn search_of_an_occupied_range_fails_after_every_port() {
    let mut pick = PortPick::new(8001, 8003);
    let mut tried = Vec::new();
    while let Some(port) = pick.next_candidate() {
        tried.push(port);
    }
    assert_eq!(tried.len(), 13);
    assert_eq!(&tried[10..], &[8001, 8002, 8003]);
    assert_eq!(pick.exhausted_message(), "No available backend port in range 8001-8003");
}

#[test]
fn search_of_a_single_port() {
    let mut pick = PortPick::new(65535, 65535);
    for _ in 0..11 {
        assert_eq!(pick.next_candidate(), Some(65535));
    }
    assert_eq!(pick.next_candidate(), None);
}

#[test]
fn search_of_an_empty_range_has_no_candidate() {
    let mut pick = PortPick::new(9000, 8000);
    assert_eq!(pick.next_candidate(), None);
    assert_eq!(pick.candidate_for(8500), None);
    assert_eq!(pick.exhausted_message(), "No available backend port in range 9000-8000");
}

#[test]
fn search_of_a_mode_covers_its_range() {
    let pick = pick_backend_port(ServerMode::Build);
    assert_eq!(pick, PortPick { start: 8100, end: 8199, draws_left: 10, scan_next: 8100 });
    let pick = pick_backend_port(ServerMode::Dev);
    assert_eq!(pick, PortPick { start: 8001, end: 8099, draws_left: 10, scan_next: 8001 });
}

#[test]
fn wait_probes_until_the_timeout() {
    let wait = wait_for_backend(8042, 180, 5000, 500);
    assert_eq!(wait.poll(0), WaitStep::Probe { port: 8042, timeout_ms: 5000 });
    assert_eq!(wait.poll(179_999), WaitStep::Probe { port: 8042, timeout_ms: 5000 });
    assert_eq!(wait.poll(180_000), WaitStep::TimedOut);
    assert_eq!(wait.poll(u64::MAX), WaitStep::TimedOut);
    assert_eq!(wait.probed(false), WaitStep::Pause { ms: 500 });
    assert_eq!(wait.probed(true), WaitStep::Ready);
    assert_eq!(startup_timeout_message(), "Backend did not start in time");
}

#[test]
fn wait_with_extreme_timeouts() {
    let never = wait_for_backend(1, 0, 1, 1);
    assert_eq!(never.poll(0), WaitStep::TimedOut);
    let long = wait_for_backend(1, u64::MAX, 1, 1);
    assert_eq!(long.poll(u64::MAX), WaitStep::Probe { port: 1, timeout_ms: 1 });
}

#[test]
fn scenario_detection_over_known_replies() {
    let answers = vec![
        Some(reply(200, Some("someone-else"), None)),
        None,
        Some(reply(200, Some("lifetrace"), Some("dev"))),
    ];
    assert_eq!(detect_running(8001, 8003, &answers), Some(8003));
    // The range ends before the backend.
    assert_eq!(detect_running(8001, 8002, &answers), None);
}

#[test]
fn detection_over_known_replies_prefers_the_lower_port() {
    let answers = vec![
        None,
        Some(reply(200, Some("lifetrace"), None)),
        Some(reply(200, Some("lifetrace"), None)),
    ];
    assert_eq!(detect_running(9000, 9002, &answers), Some(9001));
    assert_eq!(detect_running(9000, 9000, &answers), None);
    assert_eq!(detect_running(9000, 65535, &answers), Some(9001));
    // Ports beyond the list did not answer.
    assert_eq!(detect_running(9000, 9010, &vec![]), None);
    assert_eq!(detect_running(9002, 9001, &answers), None);
}

#[test]
fn free_port_is_found_whenever_there_is_one() {
    for _ in 0..50 {
        assert_eq!(pick_free_port(8001, 8005, &vec![false, false, true, false, false]), Ok(8003));
        assert_eq!(pick_free_port(8001, 8001, &vec![true]), Ok(8001));
        assert_eq!(pick_free_port(65535, 65535, &vec![true]), Ok(65535));
        let picked = pick_free_port(8001, 8004, &vec![true, false, true, false]).unwrap();
        assert!(picked == 8001 || picked == 8003);
        // A free port outside the range does not count.
        assert_eq!(
            pick_free_port(8001, 8002, &vec![false, false, true]),
            Err("No available backend port in range 8001-8002".to_string())
        );
    }
}

#[test]
fn occupied_range_has_no_free_port() {
    assert_eq!(
        pick_free_port(8001, 8003, &vec![false, false, false]),
        Err("No available backend port in range 8001-8003".to_string())
    );
    assert_eq!(
        pick_free_port(8100, 8199, &vec![]),
        Err("No available backend port in range 8100-8199".to_string())
    );
    assert_eq!(
        pick_free_port(9000, 8000, &vec![true, true]),
        Err("No available backend port in range 9000-8000".to_string())
    );
}

#[test]
fn probe_bounds() {
    assert_eq!(free_todo::backend_support::IDENTITY_PROBE_TIMEOUT_MS, 2000);
    assert_eq!(free_todo::backend_support::VERIFY_PROBE_TIMEOUT_MS, 5000);
    assert_eq!(free_todo::backend_proxy::FORWARD_TIMEOUT_MS, 30000);
}

#[test]
fn address_of_the_health_endpoint() {
    assert_eq!(HEALTH_PATH, "/health");
    assert_eq!(health_url(8001), "http://127.0.0.1:8001/health");
    assert_eq!(health_url(0), "http://127.0.0.1:0/health");
    assert_eq!(health_url(65535), "http://127.0.0.1:65535/health");
}
