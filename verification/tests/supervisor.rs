use free_todo::backend::{
    backend_supervisor, bind_error_message, claim_supervisor, cleanup, get_backend_url,
    mode_label, must_force_stop, proxy_bind_failed, proxy_state, server_mode, start_backend,
    stop_backend, stop_managed_backend, ProcessEnd, ProcessPoll, StartStep, SupervisorAction,
    SupervisorClaim, SupervisorEvent, SupervisorState, BACKOFF_CEILING_MS, BACKOFF_FLOOR_MS,
    PORT_UNSET, STOP_GRACE_MS,
};
use free_todo::backend_proxy::{
    proxy_handler, ready_response, ProxyDecision, ProxyState, STATUS_OK,
    STATUS_SERVICE_UNAVAILABLE,
};
use free_todo::backend_support::{HealthReply, HealthReport};
use free_todo::config::ServerMode;

const PAUSE: SupervisorAction = SupervisorAction::Sleep { ms: 30_000 };

const BROUGHT_DOWN: ProcessEnd = ProcessEnd::Terminate { grace_ms: 2000 };

fn backend_reply() -> HealthReply {
    HealthReply {
        status: 200,
        report: Some(HealthReport {
            app: Some("lifetrace".to_string()),
            server_mode: Some("dev".to_string()),
        }),
    }
}

fn ready_status(state: &SupervisorState) -> (u16, String) {
    let proxy = proxy_state(state);
    assert_eq!(proxy, ProxyState::new(state.backend_port, state.ready));
    match proxy_handler(&proxy, "/ready", Some("/ready"), &Vec::new()) {
        ProxyDecision::Respond(response) => {
            (response.status, String::from_utf8(response.body).unwrap())
        }
        ProxyDecision::Forward(_) => panic!("the readiness path is never forwarded"),
    }
}

/// Drives one failed launch from the head of a pass and returns the wait that followed.
fn fail_once(state: &mut SupervisorState) -> u64 {
    assert_eq!(backend_supervisor(state, SupervisorEvent::Woke), SupervisorAction::Detect);
    assert_eq!(
        backend_supervisor(state, SupervisorEvent::Detected { port: None }),
        SupervisorAction::Launch
    );
    match backend_supervisor(state, SupervisorEvent::Launched { port: None }) {
        SupervisorAction::Sleep { ms } => ms,
        other => panic!("a failed launch is followed by a sleep, not {:?}", other),
    }
}

#[test]
fn fresh_state_is_unset() {
    let state = SupervisorState::new();
    assert_eq!(state.backend_port, PORT_UNSET);
    assert!(!state.ready);
    assert_eq!(state.proxy_port, PORT_UNSET);
    assert!(!state.stopping);
    assert!(!state.proxy_started);
    assert!(!state.managed);
    assert!(!state.uv_synced);
    assert_eq!(state.backoff_ms, BACKOFF_FLOOR_MS);
    assert_eq!(state.pending, SupervisorAction::Sleep { ms: 0 });
    assert!(!state.supervisor_running);
}

#[test]
fn fresh_state_scans_first() {
    let mut state = SupervisorState::new();
    let action = backend_supervisor(&mut state, SupervisorEvent::Woke);
    assert_eq!(action, SupervisorAction::Detect);
    assert_eq!(state.pending, SupervisorAction::Detect);
}

#[test]
fn scenario_launch_fails_twice_then_succeeds() {
    let mut state = SupervisorState::new();
    assert_eq!(start_backend(&mut state, ServerMode::Dev), StartStep::BindProxy { port: 8001 });
    assert_eq!(ready_status(&state), (503, "{\"status\":\"starting\"}".to_string()));

    assert_eq!(fail_once(&mut state), 500);
    assert_eq!(ready_status(&state), (503, "{\"status\":\"starting\"}".to_string()));
    assert_eq!(fail_once(&mut state), 1000);
    assert_eq!(ready_status(&state), (503, "{\"status\":\"starting\"}".to_string()));

    assert_eq!(backend_supervisor(&mut state, SupervisorEvent::Woke), SupervisorAction::Detect);
    assert_eq!(
        backend_supervisor(&mut state, SupervisorEvent::Detected { port: None }),
        SupervisorAction::Launch
    );
    assert_eq!(ready_status(&state).0, 503);
    assert_eq!(
        backend_supervisor(&mut state, SupervisorEvent::Launched { port: Some(8042) }),
        PAUSE
    );
    assert!(state.ready);
    assert!(state.managed);
    assert_eq!(state.backend_port, 8042);
    assert_eq!(state.backoff_ms, 500);
    assert_eq!(
        ready_status(&state),
        (200, "{\"backend_port\":8042,\"status\":\"ready\"}".to_string())
    );
}

#[test]
fn scenario_managed_process_exits() {
    let mut state = SupervisorState::new();
    backend_supervisor(&mut state, SupervisorEvent::Woke);
    backend_supervisor(&mut state, SupervisorEvent::Detected { port: None });
    backend_supervisor(&mut state, SupervisorEvent::Launched { port: Some(8007) });
    assert!(state.ready && state.managed);

    assert_eq!(backend_supervisor(&mut state, SupervisorEvent::Woke), SupervisorAction::PollProcess);
    assert_eq!(
        backend_supervisor(&mut state, SupervisorEvent::ProcessPolled { exited: true }),
        PAUSE
    );
    assert!(!state.ready);
    assert!(!state.managed);
    assert_eq!(state.backend_port, PORT_UNSET);

    // The next pass scans, then launches; the old port is not probed again.
    assert_eq!(backend_supervisor(&mut state, SupervisorEvent::Woke), SupervisorAction::Detect);
    assert_eq!(
        backend_supervisor(&mut state, SupervisorEvent::Detected { port: None }),
        SupervisorAction::Launch
    );
    assert_eq!(
        backend_supervisor(&mut state, SupervisorEvent::Launched { port: Some(8055) }),
        PAUSE
    );
    assert_eq!(state.backend_port, 8055);
}

#[test]
fn backoff_doubles_up_to_the_ceiling() {
    let mut state = SupervisorState::new();
    let mut waits = Vec::new();
    for _ in 0..8 {
        waits.push(fail_once(&mut state));
    }
    assert_eq!(waits, vec![500, 1000, 2000, 4000, 8000, 10_000, 10_000, 10_000]);
    assert_eq!(state.backoff_ms, BACKOFF_CEILING_MS);
    assert!(!state.ready);
}

#[test]
fn backoff_returns_to_the_floor_after_a_launch() {
    let mut state = SupervisorState::new();
    fail_once(&mut state);
    fail_once(&mut state);
    fail_once(&mut state);
    assert_eq!(state.backoff_ms, 4000);
    backend_supervisor(&mut state, SupervisorEvent::Woke);
    backend_supervisor(&mut state, SupervisorEvent::Detected { port: None });
    backend_supervisor(&mut state, SupervisorEvent::Launched { port: Some(8010) });
    assert_eq!(state.backoff_ms, 500);
}

#[test]
fn backoff_returns_to_the_floor_after_an_adoption() {
    let mut state = SupervisorState::new();
    fail_once(&mut state);
    fail_once(&mut state);
    backend_supervisor(&mut state, SupervisorEvent::Woke);
    assert_eq!(
        backend_supervisor(&mut state, SupervisorEvent::Detected { port: Some(8003) }),
        PAUSE
    );
    assert_eq!(state.backoff_ms, 500);
    // The first failure after it waits the floor again.
    state.backend_port = PORT_UNSET;
    state.ready = false;
    assert_eq!(fail_once(&mut state), 500);
}

#[test]
fn detected_backend_is_adopted_and_not_launched() {
    let mut state = SupervisorState::new();
    assert_eq!(backend_supervisor(&mut state, SupervisorEvent::Woke), SupervisorAction::Detect);
    let action = backend_supervisor(&mut state, SupervisorEvent::Detected { port: Some(8003) });
    assert_eq!(action, PAUSE);
    assert_eq!(state.backend_port, 8003);
    assert!(state.ready);
    assert!(!state.managed);
    // The pass after it probes the adopted backend; nothing is launched.
    assert_eq!(
        backend_supervisor(&mut state, SupervisorEvent::Woke),
        SupervisorAction::ProbeHealth { port: 8003 }
    );
    assert_eq!(
        backend_supervisor(&mut state, SupervisorEvent::HealthProbed { healthy: true }),
        PAUSE
    );
    assert!(state.ready);
}

#[test]
fn detection_of_the_unset_port_counts_as_nothing_found() {
    let mut state = SupervisorState::new();
    backend_supervisor(&mut state, SupervisorEvent::Woke);
    assert_eq!(
        backend_supervisor(&mut state, SupervisorEvent::Detected { port: Some(0) }),
        SupervisorAction::Launch
    );
    assert!(!state.ready);
}

#[test]
fn adopted_backend_that_fails_its_probe_is_given_up_in_the_same_pass() {
    let mut state = SupervisorState::new();
    backend_supervisor(&mut state, SupervisorEvent::Woke);
    backend_supervisor(&mut state, SupervisorEvent::Detected { port: Some(8003) });
    backend_supervisor(&mut state, SupervisorEvent::Woke);
    let action = backend_supervisor(&mut state, SupervisorEvent::HealthProbed { healthy: false });
    assert_eq!(action, SupervisorAction::Detect);
    assert!(!state.ready);
    assert_eq!(state.backend_port, PORT_UNSET);
}

#[test]
fn managed_backend_follows_its_probe() {
    let mut state = SupervisorState::new();
    backend_supervisor(&mut state, SupervisorEvent::Woke);
    backend_supervisor(&mut state, SupervisorEvent::Detected { port: None });
    backend_supervisor(&mut state, SupervisorEvent::Launched { port: Some(8020) });

    backend_supervisor(&mut state, SupervisorEvent::Woke);
    assert_eq!(
        backend_supervisor(&mut state, SupervisorEvent::ProcessPolled { exited: false }),
        SupervisorAction::ProbeHealth { port: 8020 }
    );
    assert_eq!(
        backend_supervisor(&mut state, SupervisorEvent::HealthProbed { healthy: false }),
        PAUSE
    );
    assert!(!state.ready);
    assert!(state.managed);
    assert_eq!(state.backend_port, 8020);

    backend_supervisor(&mut state, SupervisorEvent::Woke);
    backend_supervisor(&mut state, SupervisorEvent::ProcessPolled { exited: false });
    backend_supervisor(&mut state, SupervisorEvent::HealthProbed { healthy: true });
    assert!(state.ready);
}

#[test]
fn readiness_follows_the_health_reports() {
    let mut state = SupervisorState::new();
    let events = [
        SupervisorEvent::Woke,
        SupervisorEvent::Detected { port: None },
        SupervisorEvent::Launched { port: None },
        SupervisorEvent::Woke,
        SupervisorEvent::Detected { port: Some(8002) },
        SupervisorEvent::Woke,
        SupervisorEvent::HealthProbed { healthy: true },
        SupervisorEvent::Woke,
        SupervisorEvent::HealthProbed { healthy: false },
        SupervisorEvent::Detected { port: None },
    ];
    let expected = [false, false, false, false, true, true, true, true, false, false];
    for (event, ready) in events.iter().zip(expected.iter()) {
        backend_supervisor(&mut state, *event);
        assert_eq!(state.ready, *ready);
        assert!(!state.ready || state.backend_port != PORT_UNSET);
    }
}

#[test]
fn event_that_answers_nothing_changes_nothing() {
    let mut state = SupervisorState::new();
    backend_supervisor(&mut state, SupervisorEvent::Woke);
    let before = state;
    let action = backend_supervisor(&mut state, SupervisorEvent::Launched { port: Some(8001) });
    assert_eq!(action, SupervisorAction::Detect);
    assert_eq!(state, before);
}

#[test]
fn stop_ends_the_loop_at_the_next_pass() {
    let mut state = SupervisorState::new();
    backend_supervisor(&mut state, SupervisorEvent::Woke);
    backend_supervisor(&mut state, SupervisorEvent::Detected { port: None });
    backend_supervisor(&mut state, SupervisorEvent::Launched { port: Some(8020) });
    assert_eq!(stop_backend(&mut state), BROUGHT_DOWN);
    assert!(state.stopping);
    assert!(!state.ready);
    assert!(!state.managed);
    assert_eq!(backend_supervisor(&mut state, SupervisorEvent::Woke), SupervisorAction::Exit);
    assert_eq!(backend_supervisor(&mut state, SupervisorEvent::Woke), SupervisorAction::Exit);
    assert_eq!(
        backend_supervisor(&mut state, SupervisorEvent::Detected { port: Some(8001) }),
        SupervisorAction::Exit
    );
    assert!(!state.ready);
}

#[test]
fn stop_without_a_process_has_nothing_to_terminate() {
    let mut state = SupervisorState::new();
    assert_eq!(stop_backend(&mut state), ProcessEnd::Nothing);
    assert!(state.stopping);
    let mut other = SupervisorState::new();
    assert_eq!(cleanup(&mut other), ProcessEnd::Nothing);
    assert!(other.stopping);
}

#[test]
fn cleanup_gives_up_the_process() {
    let mut state = SupervisorState::new();
    state.managed = true;
    state.backend_port = 8009;
    state.ready = true;
    assert_eq!(cleanup(&mut state), BROUGHT_DOWN);
    assert!(state.stopping && !state.ready && !state.managed);
    assert_eq!(state.backend_port, 8009);
}

#[test]
fn stop_managed_backend_takes_the_process_only() {
    let mut state = SupervisorState::new();
    state.managed = true;
    state.backend_port = 8009;
    assert_eq!(stop_managed_backend(&mut state), BROUGHT_DOWN);
    assert!(!state.managed);
    assert!(!state.stopping);
    assert_eq!(state.backend_port, 8009);
    assert_eq!(stop_managed_backend(&mut state), ProcessEnd::Nothing);
}

#[test]
fn force_stop_unless_exited() {
    assert!(!must_force_stop(ProcessPoll::Exited));
    assert!(must_force_stop(ProcessPoll::Running));
    assert!(must_force_stop(ProcessPoll::Unknown));
    assert_eq!(STOP_GRACE_MS, 2000);
}

#[test]
fn proxy_is_bound_once() {
    let mut state = SupervisorState::new();
    assert_eq!(start_backend(&mut state, ServerMode::Build), StartStep::BindProxy { port: 8100 });
    assert!(state.proxy_started);
    assert_eq!(state.proxy_port, 8100);
    assert_eq!(start_backend(&mut state, ServerMode::Build), StartStep::RunSupervisor);
    assert!(state.proxy_started);
    assert_eq!(state.proxy_port, 8100);
}

#[test]
fn start_resets_the_state() {
    let mut state = SupervisorState::new();
    state.stopping = true;
    state.backend_port = 8033;
    state.ready = true;
    state.backoff_ms = 8000;
    state.pending = SupervisorAction::Launch;
    start_backend(&mut state, ServerMode::Dev);
    assert!(!state.stopping);
    assert!(!state.ready);
    assert_eq!(state.backend_port, PORT_UNSET);
    assert_eq!(state.backoff_ms, BACKOFF_FLOOR_MS);
    assert_eq!(state.pending, SupervisorAction::Sleep { ms: 0 });
    assert_eq!(state.proxy_port, 8001);
}

#[test]
fn failed_bind_on_a_backend_adopts_it() {
    let mut state = SupervisorState::new();
    start_backend(&mut state, ServerMode::Dev);
    let reply = backend_reply();
    let outcome = proxy_bind_failed(&mut state, Some(&reply), "busy".to_string());
    assert_eq!(outcome, Ok(()));
    assert!(!state.proxy_started);
    assert!(state.ready);
    assert_eq!(state.backend_port, 8001);
    // The port was not bound, so the next start tries again.
    assert_eq!(start_backend(&mut state, ServerMode::Dev), StartStep::BindProxy { port: 8001 });
}

#[test]
fn failed_bind_on_something_else_is_an_error() {
    let mut state = SupervisorState::new();
    start_backend(&mut state, ServerMode::Dev);
    let message = bind_error_message(8001, "Address already in use");
    assert_eq!(message, "Failed to bind proxy port 8001: Address already in use");
    let outcome = proxy_bind_failed(&mut state, None, message.clone());
    assert_eq!(outcome, Err(message));
    assert!(!state.proxy_started);
    assert!(!state.ready);
    assert_eq!(state.backend_port, PORT_UNSET);

    let foreign = HealthReply {
        status: 200,
        report: Some(HealthReport { app: Some("other".to_string()), server_mode: None }),
    };
    let mut second = SupervisorState::new();
    start_backend(&mut second, ServerMode::Dev);
    assert!(proxy_bind_failed(&mut second, Some(&foreign), "busy".to_string()).is_err());
}

#[test]
fn backend_url_names_the_proxy_port() {
    let mut state = SupervisorState::new();
    assert_eq!(get_backend_url(&state, ServerMode::Dev), "http://127.0.0.1:8001");
    assert_eq!(get_backend_url(&state, ServerMode::Build), "http://127.0.0.1:8100");
    start_backend(&mut state, ServerMode::Build);
    assert_eq!(get_backend_url(&state, ServerMode::Dev), "http://127.0.0.1:8100");
    state.proxy_port = 65535;
    assert_eq!(get_backend_url(&state, ServerMode::Dev), "http://127.0.0.1:65535");
}

#[test]
fn modes_and_their_labels() {
    assert_eq!(server_mode(true), ServerMode::Dev);
    assert_eq!(server_mode(false), ServerMode::Build);
    assert_eq!(mode_label(ServerMode::Dev), "dev");
    assert_eq!(mode_label(ServerMode::Build), "build");
}

#[test]
fn readiness_answer_of_the_state() {
    let response = ready_response(true, 8001);
    assert_eq!(response.status, STATUS_OK);
    let response = ready_response(false, 8001);
    assert_eq!(response.status, STATUS_SERVICE_UNAVAILABLE);
}

#[test]
fn repeated_start_spawns_one_supervisor() {
    let mut state = SupervisorState::new();
    assert_eq!(start_backend(&mut state, ServerMode::Dev), StartStep::BindProxy { port: 8001 });
    assert_eq!(claim_supervisor(&mut state), SupervisorClaim::Spawn);
    assert!(state.supervisor_running);

    // The loop works: it launches a backend and is about to probe it.
    backend_supervisor(&mut state, SupervisorEvent::Woke);
    backend_supervisor(&mut state, SupervisorEvent::Detected { port: None });
    backend_supervisor(&mut state, SupervisorEvent::Launched { port: Some(8042) });
    backend_supervisor(&mut state, SupervisorEvent::Woke);
    backend_supervisor(&mut state, SupervisorEvent::ProcessPolled { exited: false });
    assert_eq!(state.pending, SupervisorAction::ProbeHealth { port: 8042 });
    let before = state;

    // A further start binds nothing, spawns nothing, and leaves the loop's state alone.
    assert_eq!(start_backend(&mut state, ServerMode::Dev), StartStep::RunSupervisor);
    assert_eq!(claim_supervisor(&mut state), SupervisorClaim::AlreadyRunning);
    assert_eq!(state, before);
    assert_eq!(
        backend_supervisor(&mut state, SupervisorEvent::HealthProbed { healthy: true }),
        PAUSE
    );
    assert!(state.ready);
    assert_eq!(state.backend_port, 8042);
}

#[test]
fn start_after_a_requested_stop_keeps_the_running_loop() {
    let mut state = SupervisorState::new();
    start_backend(&mut state, ServerMode::Dev);
    claim_supervisor(&mut state);
    backend_supervisor(&mut state, SupervisorEvent::Woke);
    backend_supervisor(&mut state, SupervisorEvent::Detected { port: Some(8003) });
    stop_backend(&mut state);
    assert!(state.stopping && state.supervisor_running);

    // The loop has not seen the stop yet; the start takes it back.
    assert_eq!(start_backend(&mut state, ServerMode::Dev), StartStep::RunSupervisor);
    assert_eq!(claim_supervisor(&mut state), SupervisorClaim::AlreadyRunning);
    assert!(!state.stopping);
    assert_eq!(
        backend_supervisor(&mut state, SupervisorEvent::Woke),
        SupervisorAction::ProbeHealth { port: 8003 }
    );
}

#[test]
fn new_supervisor_after_the_old_one_has_ended() {
    let mut state = SupervisorState::new();
    start_backend(&mut state, ServerMode::Dev);
    assert_eq!(claim_supervisor(&mut state), SupervisorClaim::Spawn);
    backend_supervisor(&mut state, SupervisorEvent::Woke);
    backend_supervisor(&mut state, SupervisorEvent::Detected { port: Some(8003) });
    stop_backend(&mut state);
    assert_eq!(backend_supervisor(&mut state, SupervisorEvent::Woke), SupervisorAction::Exit);
    assert!(!state.supervisor_running);

    assert_eq!(start_backend(&mut state, ServerMode::Dev), StartStep::RunSupervisor);
    assert!(!state.stopping);
    assert_eq!(state.backend_port, PORT_UNSET);
    assert_eq!(claim_supervisor(&mut state), SupervisorClaim::Spawn);
    assert!(state.supervisor_running);
    assert_eq!(state.pending, SupervisorAction::Sleep { ms: 0 });
    assert_eq!(backend_supervisor(&mut state, SupervisorEvent::Woke), SupervisorAction::Detect);
}

#[test]
fn claim_begins_at_the_head_of_the_loop() {
    let mut state = SupervisorState::new();
    state.pending = SupervisorAction::Launch;
    state.backoff_ms = 8000;
    assert_eq!(claim_supervisor(&mut state), SupervisorClaim::Spawn);
    assert_eq!(state.pending, SupervisorAction::Sleep { ms: 0 });
    assert_eq!(state.backoff_ms, BACKOFF_FLOOR_MS);
    assert_eq!(claim_supervisor(&mut state), SupervisorClaim::AlreadyRunning);
}

#[test]
fn failed_bind_beside_a_running_loop_leaves_adoption_to_it() {
    let mut state = SupervisorState::new();
    start_backend(&mut state, ServerMode::Dev);
    let reply = backend_reply();
    assert_eq!(proxy_bind_failed(&mut state, Some(&reply), "busy".to_string()), Ok(()));
    assert_eq!(claim_supervisor(&mut state), SupervisorClaim::Spawn);
    assert!(state.ready);
    assert_eq!(state.backend_port, 8001);

    // The loop gives the backend up; a further start finds the port still taken.
    backend_supervisor(&mut state, SupervisorEvent::Woke);
    backend_supervisor(&mut state, SupervisorEvent::HealthProbed { healthy: false });
    assert_eq!(state.pending, SupervisorAction::Detect);
    let before = state;
    assert_eq!(start_backend(&mut state, ServerMode::Dev), StartStep::BindProxy { port: 8001 });
    assert_eq!(proxy_bind_failed(&mut state, Some(&reply), "busy".to_string()), Ok(()));
    assert_eq!(claim_supervisor(&mut state), SupervisorClaim::AlreadyRunning);
    assert!(!state.ready);
    assert_eq!(state.backend_port, PORT_UNSET);
    assert_eq!(state.pending, before.pending);
}
