//! The backend supervisor: the shared state, the reconciliation loop as a
//! state machine, and the decisions of start-up and shutdown.
//!
//! The supervisor never performs an action itself. It names the next one
//! (poll the process, probe a port, scan for a running backend, launch a new
//! one, sleep) and takes the outcome as an event. Whoever drives it owns the
//! process handle and the sockets.

pub mod launch;

use crate::backend_proxy::{
    forward_url, passing_lines, proxy_decision, ready_answer, DecisionView, ProxyState, READY_PATH,
};
use crate::config::health_check::BACKEND_INTERVAL;
use crate::config::ports;
use crate::config::ServerMode;
use crate::text::{decimal, decimal_string};
use vstd::arithmetic::power2::{lemma_pow2_unfold, pow2};
use vstd::prelude::*;
use vstd::string::*;

verus! {

/// The shortest wait after a failed launch, in milliseconds.
pub const BACKOFF_FLOOR_MS: u64 = 500;

/// The longest wait after a failed launch, in milliseconds.
pub const BACKOFF_CEILING_MS: u64 = 10_000;

/// The port value that stands for "no backend known".
pub const PORT_UNSET: u16 = 0;

/// What the supervisor asks its driver to do next.
#[derive(Debug, Clone, Copy, PartialEq, Eq, Structural)]
pub enum SupervisorAction {
    /// Leave the loop: a stop was requested.
    Exit,
    /// Ask the managed process whether it has exited.
    PollProcess,
    /// Probe the health endpoint of the port.
    ProbeHealth { port: u16 },
    /// Scan the port range for a backend that is already running.
    Detect,
    /// Launch a new backend.
    Launch,
    /// Sleep; the next reconciliation pass begins on waking.
    Sleep { ms: u64 },
}

/// What the driver reports back.
#[derive(Debug, Clone, Copy, PartialEq, Eq, Structural)]
pub enum SupervisorEvent {
    /// The sleep is over.
    Woke,
    /// The managed process was polled. A poll that failed counts as "still running".
    ProcessPolled { exited: bool },
    /// The health probe came back.
    HealthProbed { healthy: bool },
    /// The scan for a running backend ended, with the port it found.
    Detected { port: Option<u16> },
    /// The launch ended: with the port of the new, healthy and identified
    /// backend, or with nothing, any process it had started being gone again.
    Launched { port: Option<u16> },
}

/// The state that the supervisor and the proxy share, together with the
/// supervisor's own place in its loop.
#[derive(Debug, Clone, Copy, PartialEq, Eq, Structural)]
pub struct SupervisorState {
    /// Port of the live backend, `PORT_UNSET` while none is known.
    pub backend_port: u16,
    /// True only while the backend at `backend_port` has passed its latest health probe.
    pub ready: bool,
    /// The stable port of the proxy; `PORT_UNSET` before the first start.
    pub proxy_port: u16,
    /// Once set, the loop ends at its next pass and nothing is launched any more.
    pub stopping: bool,
    /// Whether the proxy has been bound.
    pub proxy_started: bool,
    /// Whether the live backend is a process that this supervisor spawned.
    pub managed: bool,
    /// Whether the backend's dependencies have been synchronised in this run.
    pub uv_synced: bool,
    /// The wait that follows the next failed launch, in milliseconds.
    pub backoff_ms: u64,
    /// The action whose outcome the supervisor waits for.
    pub pending: SupervisorAction,
    /// Whether a supervisor loop works on this state: set when a loop is
    /// claimed, cleared by the step that ends the loop.
    pub supervisor_running: bool,
}

/// A port that names a backend: present and not the unset value.
pub open spec fn known_port(port: Option<u16>) -> bool {
    port matches Some(p) && p != PORT_UNSET
}

/// The wait that follows `backoff_ms`: twice as long, up to the ceiling.
pub open spec fn next_backoff(backoff_ms: u64) -> u64 {
    if backoff_ms >= BACKOFF_CEILING_MS / 2 {
        BACKOFF_CEILING_MS
    } else {
        (backoff_ms * 2) as u64
    }
}

/// The wait after the launch that follows `failures` consecutive failed
/// launches has failed too: `min(500 ms * 2^failures, 10 s)`.
pub open spec fn backoff_after(failures: nat) -> int {
    if BACKOFF_FLOOR_MS * pow2(failures) <= BACKOFF_CEILING_MS {
        BACKOFF_FLOOR_MS * pow2(failures)
    } else {
        BACKOFF_CEILING_MS as int
    }
}

impl SupervisorState {
    /// The invariant of the state: readiness implies a known port, a
    /// pending probe is a probe of the current port, the backoff lies
    /// between its floor and its ceiling, and a loop that has ended does
    /// not count as running.
    pub open spec fn wf(self) -> bool {
        &&& self.ready ==> self.backend_port != PORT_UNSET
        &&& self.pending matches SupervisorAction::ProbeHealth { port } ==> port
            == self.backend_port && port != PORT_UNSET
        &&& BACKOFF_FLOOR_MS <= self.backoff_ms <= BACKOFF_CEILING_MS
        &&& self.pending == SupervisorAction::Exit ==> !self.supervisor_running
    }

    /// The state before anything has happened.
    pub open spec fn initial() -> SupervisorState {
        SupervisorState {
            backend_port: PORT_UNSET,
            ready: false,
            proxy_port: PORT_UNSET,
            stopping: false,
            proxy_started: false,
            managed: false,
            uv_synced: false,
            backoff_ms: BACKOFF_FLOOR_MS,
            pending: SupervisorAction::Sleep { ms: 0 },
            supervisor_running: false,
        }
    }

    /// Whether `event` is the outcome of the pending action.
    pub open spec fn answers(self, event: SupervisorEvent) -> bool {
        match (self.pending, event) {
            (SupervisorAction::Sleep { .. }, SupervisorEvent::Woke) => true,
            (SupervisorAction::PollProcess, SupervisorEvent::ProcessPolled { .. }) => true,
            (SupervisorAction::ProbeHealth { .. }, SupervisorEvent::HealthProbed { .. }) => true,
            (SupervisorAction::Detect, SupervisorEvent::Detected { .. }) => true,
            (SupervisorAction::Launch, SupervisorEvent::Launched { .. }) => true,
            _ => false,
        }
    }

    /// The action that opens a reconciliation pass.
    pub open spec fn pass_opening(self) -> SupervisorAction {
        if self.stopping {
            SupervisorAction::Exit
        } else if self.managed {
            SupervisorAction::PollProcess
        } else if self.backend_port != PORT_UNSET {
            SupervisorAction::ProbeHealth { port: self.backend_port }
        } else {
            SupervisorAction::Detect
        }
    }

    /// The state with no backend known.
    pub open spec fn without_backend(self) -> SupervisorState {
        SupervisorState { backend_port: PORT_UNSET, ready: false, managed: false, ..self }
    }

    /// The state with a healthy backend on `port`, the backoff back at its floor.
    pub open spec fn with_backend(self, port: u16, managed: bool) -> SupervisorState {
        SupervisorState {
            backend_port: port,
            ready: true,
            managed,
            backoff_ms: BACKOFF_FLOOR_MS,
            ..self
        }
    }

    /// The state that follows `event`, before the next action is recorded,
    /// and that action. An event that does not answer the pending action
    /// changes nothing, and the pending action is asked for again.
    pub open spec fn react(self, event: SupervisorEvent) -> (SupervisorState, SupervisorAction) {
        let pause = SupervisorAction::Sleep { ms: BACKEND_INTERVAL };
        match (self.pending, event) {
            (SupervisorAction::Sleep { .. }, SupervisorEvent::Woke) => (self, self.pass_opening()),
            (SupervisorAction::PollProcess, SupervisorEvent::ProcessPolled { exited }) => {
                if exited {
                    (self.without_backend(), pause)
                } else if self.backend_port != PORT_UNSET {
                    (self, SupervisorAction::ProbeHealth { port: self.backend_port })
                } else {
                    (self, pause)
                }
            },
            (SupervisorAction::ProbeHealth { .. }, SupervisorEvent::HealthProbed { healthy }) => {
                if self.managed {
                    (SupervisorState { ready: healthy, ..self }, pause)
                } else if healthy {
                    (SupervisorState { ready: true, ..self }, pause)
                } else {
                    (self.without_backend(), SupervisorAction::Detect)
                }
            },
            (SupervisorAction::Detect, SupervisorEvent::Detected { port }) => {
                if known_port(port) {
                    (self.with_backend(port->0, false), pause)
                } else {
                    (self, SupervisorAction::Launch)
                }
            },
            (SupervisorAction::Launch, SupervisorEvent::Launched { port }) => {
                if known_port(port) {
                    (self.with_backend(port->0, true), pause)
                } else {
                    (
                        SupervisorState {
                            ready: false,
                            managed: false,
                            backoff_ms: next_backoff(self.backoff_ms),
                            ..self
                        },
                        SupervisorAction::Sleep { ms: self.backoff_ms },
                    )
                }
            },
            _ => (self, self.pending),
        }
    }

    /// The transition function of the supervisor: the state after `event`,
    /// with the action it asks for recorded as pending, and that action.
    /// The step that ends the loop also marks it as no longer running.
    pub open spec fn next(self, event: SupervisorEvent) -> (SupervisorState, SupervisorAction) {
        let (state, action) = self.react(event);
        (
            SupervisorState {
                pending: action,
                supervisor_running: state.supervisor_running && action != SupervisorAction::Exit,
                ..state
            },
            action,
        )
    }

    /// The state after a sequence of events, each answered by the transition function.
    pub open spec fn run(self, events: Seq<SupervisorEvent>) -> SupervisorState
        decreases events.len(),
    {
        if events.len() == 0 {
            self
        } else {
            self.run(events.drop_last()).next(events.last()).0
        }
    }

    /// Whether `event` reports that the backend is healthy: a probe that
    /// passed, a running backend that was detected, or a launch that ended
    /// with a healthy backend.
    pub open spec fn confirms_health(self, event: SupervisorEvent) -> bool {
        self.answers(event) && match event {
            SupervisorEvent::HealthProbed { healthy } => healthy,
            SupervisorEvent::Detected { port } => known_port(port),
            SupervisorEvent::Launched { port } => known_port(port),
            _ => false,
        }
    }

    /// Whether `event` reports that the backend is gone or unhealthy: the
    /// managed process has exited, a probe failed, or a launch failed.
    pub open spec fn refutes_health(self, event: SupervisorEvent) -> bool {
        self.answers(event) && match event {
            SupervisorEvent::ProcessPolled { exited } => exited,
            SupervisorEvent::HealthProbed { healthy } => !healthy,
            SupervisorEvent::Launched { port } => !known_port(port),
            _ => false,
        }
    }

    /// Whether `event` reports a failed launch.
    pub open spec fn launch_failed(self, event: SupervisorEvent) -> bool {
        self.pending == SupervisorAction::Launch && (event matches SupervisorEvent::Launched {
            port,
        } && !known_port(port))
    }

    /// Whether `event` reports a backend found or started, which ends a run of failures.
    pub open spec fn backend_settled(self, event: SupervisorEvent) -> bool {
        ||| self.pending == SupervisorAction::Launch && (event matches SupervisorEvent::Launched {
            port,
        } && known_port(port))
        ||| self.pending == SupervisorAction::Detect && (event matches SupervisorEvent::Detected {
            port,
        } && known_port(port))
    }

    /// The number of failed launches at the end of a run of events that no
    /// found or started backend has interrupted.
    pub open spec fn failure_streak(self, events: Seq<SupervisorEvent>) -> nat
        decreases events.len(),
    {
        if events.len() == 0 {
            0
        } else {
            let before = self.run(events.drop_last());
            if before.launch_failed(events.last()) {
                self.failure_streak(events.drop_last()) + 1
            } else if before.backend_settled(events.last()) {
                0
            } else {
                self.failure_streak(events.drop_last())
            }
        }
    }

    /// A fresh state: nothing known, nothing started, the first pass due at once.
    pub fn new() -> (state: SupervisorState)
        ensures
            state == SupervisorState::initial(),
            state.wf(),
    {
        SupervisorState {
            backend_port: PORT_UNSET,
            ready: false,
            proxy_port: PORT_UNSET,
            stopping: false,
            proxy_started: false,
            managed: false,
            uv_synced: false,
            backoff_ms: BACKOFF_FLOOR_MS,
            pending: SupervisorAction::Sleep { ms: 0 },
            supervisor_running: false,
        }
    }
}

fn port_is_known(port: Option<u16>) -> (known: bool)
    ensures
        known == known_port(port),
{
    match port {
        Some(p) => p != PORT_UNSET,
        None => false,
    }
}

fn doubled_backoff(backoff_ms: u64) -> (next: u64)
    ensures
        next == next_backoff(backoff_ms),
{
    if backoff_ms >= BACKOFF_CEILING_MS / 2 {
        BACKOFF_CEILING_MS
    } else {
        backoff_ms * 2
    }
}

/// One step of the supervisor loop: takes the outcome of the action that
/// was pending, updates the state and returns the next action.
///
/// A pass opens on waking: a requested stop ends the loop; a managed
/// process is polled, and probed while it runs; an adopted backend is
/// probed, and given up when the probe fails; with no backend known the
/// range is scanned, and only a scan that finds nothing leads to a launch.
/// A failed launch is followed by a sleep of the current backoff, which
/// then doubles up to its ceiling; every other pass ends with a sleep of
/// the polling interval.
pub fn backend_supervisor(state: &mut SupervisorState, event: SupervisorEvent) -> (action:
    SupervisorAction)
    ensures
        *final(state) == old(state).next(event).0,
        action == old(state).next(event).1,
        old(state).wf() ==> final(state).wf(),
{
    let pause = SupervisorAction::Sleep { ms: BACKEND_INTERVAL };
    let action = match (state.pending, event) {
        (SupervisorAction::Sleep { .. }, SupervisorEvent::Woke) => {
            if state.stopping {
                SupervisorAction::Exit
            } else if state.managed {
                SupervisorAction::PollProcess
            } else if state.backend_port != PORT_UNSET {
                SupervisorAction::ProbeHealth { port: state.backend_port }
            } else {
                SupervisorAction::Detect
            }
        },
        (SupervisorAction::PollProcess, SupervisorEvent::ProcessPolled { exited }) => {
            if exited {
                state.managed = false;
                state.ready = false;
                state.backend_port = PORT_UNSET;
                pause
            } else if state.backend_port != PORT_UNSET {
                SupervisorAction::ProbeHealth { port: state.backend_port }
            } else {
                pause
            }
        },
        (SupervisorAction::ProbeHealth { .. }, SupervisorEvent::HealthProbed { healthy }) => {
            if state.managed {
                state.ready = healthy;
                pause
            } else if healthy {
                state.ready = true;
                pause
            } else {
                state.ready = false;
                state.backend_port = PORT_UNSET;
                SupervisorAction::Detect
            }
        },
        (SupervisorAction::Detect, SupervisorEvent::Detected { port }) => {
            if port_is_known(port) {
                state.managed = false;
                state.backend_port = port.unwrap();
                state.ready = true;
                state.backoff_ms = BACKOFF_FLOOR_MS;
                pause
            } else {
                SupervisorAction::Launch
            }
        },
        (SupervisorAction::Launch, SupervisorEvent::Launched { port }) => {
            if port_is_known(port) {
                state.managed = true;
                state.backend_port = port.unwrap();
                state.ready = true;
                state.backoff_ms = BACKOFF_FLOOR_MS;
                pause
            } else {
                let wait = state.backoff_ms;
                state.ready = false;
                state.managed = false;
                state.backoff_ms = doubled_backoff(wait);
                SupervisorAction::Sleep { ms: wait }
            }
        },
        _ => state.pending,
    };
    state.pending = action;
    match action {
        SupervisorAction::Exit => {
            state.supervisor_running = false;
        },
        _ => {},
    }
    action
}

/// Whether the event at position `i` of a run from `start` reports a healthy backend.
pub open spec fn confirmed_at(start: SupervisorState, events: Seq<SupervisorEvent>, i: int) -> bool {
    start.run(events.take(i)).confirms_health(events[i])
}

/// Whether the event at position `j` of a run from `start` reports that the
/// backend is gone or unhealthy.
pub open spec fn refuted_at(start: SupervisorState, events: Seq<SupervisorEvent>, j: int) -> bool {
    start.run(events.take(j)).refutes_health(events[j])
}

/// Every step keeps the invariant of the state.
pub proof fn lemma_next_preserves_wf(state: SupervisorState, event: SupervisorEvent)
    requires
        state.wf(),
    ensures
        state.next(event).0.wf(),
{
}

/// Every run from a well-formed state ends in a well-formed state: whenever
/// the state says ready, it names a backend port.
pub proof fn lemma_run_preserves_wf(state: SupervisorState, events: Seq<SupervisorEvent>)
    requires
        state.wf(),
    ensures
        state.run(events).wf(),
        state.run(events).ready ==> state.run(events).backend_port != PORT_UNSET,
    decreases events.len(),
{
    if events.len() > 0 {
        lemma_run_preserves_wf(state, events.drop_last());
        lemma_next_preserves_wf(state.run(events.drop_last()), events.last());
    }
}

/// Readiness follows the health reports: a step that takes a report of an
/// exit or of a failure leaves the state not ready, and the state becomes
/// ready only by a step that takes a report of health.
pub proof fn lemma_ready_follows_health(state: SupervisorState, event: SupervisorEvent)
    ensures
        state.refutes_health(event) ==> !state.next(event).0.ready,
        state.next(event).0.ready && !state.confirms_health(event) ==> state.ready,
{
}

/// Over any sequence of events from a state that is not ready: if the
/// state is ready at the end, then some event of the sequence reported
/// health, and no event after that one reported an exit or a failure.
pub proof fn lemma_ready_only_between_health_and_failure(
    start: SupervisorState,
    events: Seq<SupervisorEvent>,
)
    requires
        !start.ready,
    ensures
        start.run(events).ready ==> exists|i: int|
            0 <= i < events.len() && #[trigger] confirmed_at(start, events, i) && forall|j: int|
                i < j < events.len() ==> !#[trigger] refuted_at(start, events, j),
    decreases events.len(),
{
    if events.len() > 0 && start.run(events).ready {
        let n = events.len() as int;
        let front = events.drop_last();
        let before = start.run(front);
        assert(events.take(n - 1) =~= front);
        lemma_ready_follows_health(before, events.last());
        if before.confirms_health(events.last()) {
            assert(confirmed_at(start, events, n - 1));
        } else {
            lemma_ready_only_between_health_and_failure(start, front);
            let i = choose|i: int|
                0 <= i < front.len() && #[trigger] confirmed_at(start, front, i) && forall|j: int|
                    i < j < front.len() ==> !#[trigger] refuted_at(start, front, j);
            assert(front.take(i) =~= events.take(i));
            assert(confirmed_at(start, events, i));
            assert forall|j: int| i < j < events.len() implies !#[trigger] refuted_at(
                start,
                events,
                j,
            ) by {
                if j < n - 1 {
                    assert(front.take(j) =~= events.take(j));
                    assert(!refuted_at(start, front, j));
                }
            }
        }
    }
}

/// A scan that finds a running backend ends the pass: the backend is
/// adopted as an external one, and the action is a sleep, not a launch.
pub proof fn lemma_no_launch_after_detection(state: SupervisorState, port: u16)
    requires
        state.pending == SupervisorAction::Detect,
        port != PORT_UNSET,
    ensures
        state.next(SupervisorEvent::Detected { port: Some(port) }).1 == (SupervisorAction::Sleep {
            ms: BACKEND_INTERVAL,
        }),
        state.next(SupervisorEvent::Detected { port: Some(port) }).0.backend_port == port,
        state.next(SupervisorEvent::Detected { port: Some(port) }).0.ready,
        !state.next(SupervisorEvent::Detected { port: Some(port) }).0.managed,
{
}

/// A launch is asked for only in answer to a scan that found nothing. The
/// one other step that returns it is an event that does not answer a launch
/// already pending: that step changes nothing.
pub proof fn lemma_launch_only_after_empty_scan(state: SupervisorState, event: SupervisorEvent)
    requires
        state.next(event).1 == SupervisorAction::Launch,
    ensures
        (state.pending == SupervisorAction::Detect && (event matches SupervisorEvent::Detected {
            port,
        } && !known_port(port))) || (state.pending == SupervisorAction::Launch && !state.answers(
            event,
        ) && state.next(event).0 == state),
{
}

/// The state holds a process only after a launch of its own: a step marks
/// the backend as managed only by taking the report of a launch that
/// ended with a healthy backend, and an adopted backend is never managed.
pub proof fn lemma_managed_only_by_own_launch(state: SupervisorState, event: SupervisorEvent)
    requires
        !state.managed,
        state.next(event).0.managed,
    ensures
        state.pending == SupervisorAction::Launch,
        event matches SupervisorEvent::Launched { port } && known_port(port),
{
}

/// Once the managed process is seen to have exited, the state is not ready
/// and names no port, and the pass that follows the sleep scans for a
/// backend: the port of the dead process is not probed again.
pub proof fn lemma_exit_forgets_the_port(state: SupervisorState)
    requires
        state.pending == SupervisorAction::PollProcess,
        !state.stopping,
    ensures
        ({
            let (gone, action) = state.next(SupervisorEvent::ProcessPolled { exited: true });
            &&& action == SupervisorAction::Sleep { ms: BACKEND_INTERVAL }
            &&& !gone.ready && gone.backend_port == PORT_UNSET && !gone.managed
            &&& gone.next(SupervisorEvent::Woke).1 == SupervisorAction::Detect
        }),
{
}

/// The closed form of the backoff: it starts at the floor, each failure
/// doubles it up to the ceiling, and it stays between the two.
pub proof fn lemma_backoff_after_unfold(failures: nat)
    ensures
        backoff_after(0) == BACKOFF_FLOOR_MS,
        BACKOFF_FLOOR_MS <= backoff_after(failures) <= BACKOFF_CEILING_MS,
        backoff_after(failures + 1) == next_backoff(backoff_after(failures) as u64),
{
    vstd::arithmetic::power2::lemma2_to64();
    lemma_pow2_unfold(failures + 1);
    vstd::arithmetic::power2::lemma_pow2_pos(failures);
    assert(BACKOFF_FLOOR_MS * pow2(failures + 1) == 2 * (BACKOFF_FLOOR_MS * pow2(failures)))
        by (nonlinear_arith)
        requires
            pow2(failures + 1) == 2 * pow2(failures),
    ;
    assert(BACKOFF_FLOOR_MS * pow2(failures) >= BACKOFF_FLOOR_MS) by (nonlinear_arith)
        requires
            pow2(failures) >= 1,
    ;
}

/// In a run that began at the floor, the backoff is `min(500 ms * 2^n, 10 s)`
/// where `n` counts the failed launches since a backend was last found or started.
pub proof fn lemma_backoff_tracks_failures(start: SupervisorState, events: Seq<SupervisorEvent>)
    requires
        start.backoff_ms == BACKOFF_FLOOR_MS,
    ensures
        start.run(events).backoff_ms == backoff_after(start.failure_streak(events)),
    decreases events.len(),
{
    lemma_backoff_after_unfold(0);
    if events.len() > 0 {
        lemma_backoff_tracks_failures(start, events.drop_last());
        lemma_backoff_after_unfold(start.failure_streak(events.drop_last()));
    }
}

/// The wait after the `n`-th consecutive failed launch, `n >= 1`, is
/// `min(500 ms * 2^(n-1), 10 s)`: the step that takes the failure answers
/// with a sleep of exactly that length.
pub proof fn lemma_wait_after_failures(start: SupervisorState, events: Seq<SupervisorEvent>)
    requires
        start.backoff_ms == BACKOFF_FLOOR_MS,
        events.len() > 0,
        start.run(events.drop_last()).launch_failed(events.last()),
    ensures
        start.failure_streak(events) >= 1,
        start.run(events.drop_last()).next(events.last()).1 == (SupervisorAction::Sleep {
            ms: backoff_after((start.failure_streak(events) - 1) as nat) as u64,
        }),
{
    lemma_backoff_tracks_failures(start, events.drop_last());
    lemma_backoff_after_unfold(start.failure_streak(events.drop_last()));
}

/// How a start goes on after the state has been prepared.
#[derive(Debug, Clone, Copy, PartialEq, Eq, Structural)]
pub enum StartStep {
    /// Bind the proxy to the stable port, then go on to the supervisor.
    BindProxy { port: u16 },
    /// The proxy is bound already: go on to the supervisor.
    RunSupervisor,
}

/// Whether a start has to bring up a supervisor loop.
#[derive(Debug, Clone, Copy, PartialEq, Eq, Structural)]
pub enum SupervisorClaim {
    /// No loop works on the state: spawn one. The state now counts it as running.
    Spawn,
    /// A loop works on the state already: spawn nothing.
    AlreadyRunning,
}

/// How a process that has been given up is brought down.
#[derive(Debug, Clone, Copy, PartialEq, Eq, Structural)]
pub enum ProcessEnd {
    /// No process was held: there is nothing to bring down.
    Nothing,
    /// Ask the process to terminate, wait `grace_ms` milliseconds, poll
    /// it, and kill it where `must_force_stop` of the poll says so.
    Terminate { grace_ms: u64 },
}

/// What polling a process told.
#[derive(Debug, Clone, Copy, PartialEq, Eq, Structural)]
pub enum ProcessPoll {
    Exited,
    Running,
    /// The poll itself failed.
    Unknown,
}

/// How long a process is given to stop by itself, in milliseconds.
pub const STOP_GRACE_MS: u64 = 2_000;

/// The end of a process that is given up: where one was held, a request to
/// terminate, the grace period, and a kill unless it has exited by then.
pub open spec fn process_end(held: bool) -> ProcessEnd {
    if held {
        ProcessEnd::Terminate { grace_ms: STOP_GRACE_MS }
    } else {
        ProcessEnd::Nothing
    }
}

impl SupervisorState {
    /// The state after a start for `mode`, and how the start goes on. The
    /// state is not stopping, and the proxy has its port and counts as
    /// started. Where no supervisor loop runs, the state is made ready for
    /// one: no backend known, the head of the loop, the backoff at its
    /// floor. Where one runs, what it writes is left to it.
    pub open spec fn started(self, mode: ServerMode) -> (SupervisorState, StartStep) {
        let prepared = SupervisorState {
            proxy_port: ports::spec_backend_port(mode),
            stopping: false,
            proxy_started: true,
            ..self
        };
        (
            if self.supervisor_running {
                prepared
            } else {
                SupervisorState {
                    backend_port: PORT_UNSET,
                    ready: false,
                    backoff_ms: BACKOFF_FLOOR_MS,
                    pending: SupervisorAction::Sleep { ms: 0 },
                    ..prepared
                }
            },
            if self.proxy_started {
                StartStep::RunSupervisor
            } else {
                StartStep::BindProxy { port: ports::spec_backend_port(mode) }
            },
        )
    }

    /// The state after a supervisor loop was asked for, and whether one is
    /// to be spawned: none where one runs already; else one that begins at
    /// the head of the loop with the backoff at its floor.
    pub open spec fn claimed(self) -> (SupervisorState, SupervisorClaim) {
        if self.supervisor_running {
            (self, SupervisorClaim::AlreadyRunning)
        } else {
            (
                SupervisorState {
                    supervisor_running: true,
                    backoff_ms: BACKOFF_FLOOR_MS,
                    pending: SupervisorAction::Sleep { ms: 0 },
                    ..self
                },
                SupervisorClaim::Spawn,
            )
        }
    }

    /// What only the supervisor loop and the stop path write: the
    /// backend's port, the readiness, the hold on the process, and the
    /// loop's own place and backoff.
    pub open spec fn supervised(self) -> (u16, bool, bool, SupervisorAction, u64, bool) {
        (
            self.backend_port,
            self.ready,
            self.managed,
            self.pending,
            self.backoff_ms,
            self.supervisor_running,
        )
    }

    /// The state after a stop was requested.
    pub open spec fn stopped(self) -> SupervisorState {
        SupervisorState { stopping: true, ready: false, managed: false, ..self }
    }

    /// The port that clients are sent to: the stable proxy port once a
    /// start has set it, the port of the mode before that.
    pub open spec fn advertised_port(self, mode: ServerMode) -> u16 {
        if self.proxy_port == PORT_UNSET {
            ports::spec_backend_port(mode)
        } else {
            self.proxy_port
        }
    }
}

/// The mode of this build.
pub fn server_mode(debug_build: bool) -> (mode: ServerMode)
    ensures
        mode == (if debug_build {
            ServerMode::Dev
        } else {
            ServerMode::Build
        }),
{
    ServerMode::current(debug_build)
}

/// The name of a mode on the backend's command line.
pub fn mode_label(mode: ServerMode) -> (label: &'static str)
    ensures
        label@ == (match mode {
            ServerMode::Dev => "dev"@,
            ServerMode::Build => "build"@,
        }),
{
    match mode {
        ServerMode::Dev => "dev",
        ServerMode::Build => "build",
    }
}

/// The address under which the backend is reached: the loopback address
/// and the advertised port.
pub fn get_backend_url(state: &SupervisorState, mode: ServerMode) -> (url: String)
    ensures
        url@ == "http://127.0.0.1:"@ + decimal(state.advertised_port(mode) as nat),
{
    let port = if state.proxy_port == PORT_UNSET {
        ports::backend_port(mode)
    } else {
        state.proxy_port
    };
    let mut url = String::from_str("http://127.0.0.1:");
    let digits = decimal_string(port as u64);
    url.append(digits.as_str());
    url
}

/// Begins a start: prepares the state and says whether the proxy has to
/// be bound. The proxy is bound at most once: a start that finds it started
/// goes straight on to the supervisor. A start that finds a supervisor loop
/// running leaves the backend's port, the readiness and the loop's place to
/// that loop. After the bind, `claim_supervisor` says whether a loop is to
/// be spawned.
pub fn start_backend(state: &mut SupervisorState, mode: ServerMode) -> (step: StartStep)
    ensures
        *final(state) == old(state).started(mode).0,
        step == old(state).started(mode).1,
        old(state).supervisor_running ==> final(state).supervised() == old(state).supervised(),
        old(state).wf() || !old(state).supervisor_running ==> final(state).wf(),
{
    let proxy_port = ports::backend_port(mode);
    let step = if state.proxy_started {
        StartStep::RunSupervisor
    } else {
        StartStep::BindProxy { port: proxy_port }
    };
    state.stopping = false;
    state.proxy_port = proxy_port;
    state.proxy_started = true;
    if !state.supervisor_running {
        state.ready = false;
        state.backend_port = PORT_UNSET;
        state.backoff_ms = BACKOFF_FLOOR_MS;
        state.pending = SupervisorAction::Sleep { ms: 0 };
    }
    step
}

/// Asks for the supervisor loop of a start. There is at most one: where a
/// loop works on the state already, nothing is to be spawned and the state
/// stays as it is; else the state counts the new loop as running from now
/// on, until the step that ends it.
pub fn claim_supervisor(state: &mut SupervisorState) -> (claim: SupervisorClaim)
    ensures
        *final(state) == old(state).claimed().0,
        claim == old(state).claimed().1,
        final(state).supervisor_running,
        (claim == SupervisorClaim::Spawn) == !old(state).supervisor_running,
        old(state).wf() ==> final(state).wf(),
{
    if state.supervisor_running {
        SupervisorClaim::AlreadyRunning
    } else {
        state.supervisor_running = true;
        state.backoff_ms = BACKOFF_FLOOR_MS;
        state.pending = SupervisorAction::Sleep { ms: 0 };
        SupervisorClaim::Spawn
    }
}

/// Whether a failed bind of the proxy port can be lived with: the port is
/// held by a backend, which then serves clients directly.
pub open spec fn proxy_port_serves_backend(
    state: SupervisorState,
    reply: Option<&crate::backend_support::HealthReply>,
) -> bool {
    crate::backend_support::is_backend_reply(reply) && state.proxy_port != PORT_UNSET
}

/// The state after a failed bind of the proxy port: the proxy no longer
/// counts as started, and a backend that holds the port is adopted, for
/// the loop to come to begin with, unless a supervisor loop runs, which
/// then finds that backend by its own scan.
pub open spec fn after_failed_bind(
    state: SupervisorState,
    reply: Option<&crate::backend_support::HealthReply>,
) -> SupervisorState {
    if proxy_port_serves_backend(state, reply) && !state.supervisor_running {
        SupervisorState {
            proxy_started: false,
            backend_port: state.proxy_port,
            ready: true,
            pending: SupervisorAction::Sleep { ms: 0 },
            ..state
        }
    } else {
        SupervisorState { proxy_started: false, ..state }
    }
}

/// Takes the failure to bind the proxy port, with what a probe of that port
/// brought back. The proxy no longer counts as started. Where the port is
/// held by a backend, the start goes on, and the backend is adopted here
/// where no supervisor loop runs; else the start fails with `error`.
pub fn proxy_bind_failed(
    state: &mut SupervisorState,
    reply: Option<&crate::backend_support::HealthReply>,
    error: String,
) -> (outcome: Result<(), String>)
    ensures
        outcome.is_ok() == proxy_port_serves_backend(*old(state), reply),
        outcome matches Err(message) ==> message == error,
        *final(state) == after_failed_bind(*old(state), reply),
        old(state).supervisor_running ==> final(state).supervised() == old(state).supervised(),
        old(state).wf() ==> final(state).wf(),
{
    state.proxy_started = false;
    if crate::backend_support::is_lifetrace_backend(reply) && state.proxy_port != PORT_UNSET {
        if !state.supervisor_running {
            state.backend_port = state.proxy_port;
            state.ready = true;
            state.pending = SupervisorAction::Sleep { ms: 0 };
        }
        Ok(())
    } else {
        Err(error)
    }
}

/// The error text of a proxy that could not be bound.
pub fn bind_error_message(port: u16, cause: &str) -> (message: String)
    ensures
        message@ == "Failed to bind proxy port "@ + decimal(port as nat) + ": "@ + cause@,
{
    let mut message = String::from_str("Failed to bind proxy port ");
    let digits = decimal_string(port as u64);
    message.append(digits.as_str());
    message.append(": ");
    message.append(cause);
    message
}

fn end_of(held: bool) -> (end: ProcessEnd)
    ensures
        end == process_end(held),
{
    if held {
        ProcessEnd::Terminate { grace_ms: STOP_GRACE_MS }
    } else {
        ProcessEnd::Nothing
    }
}

/// Gives up the managed process, as after a launch that did not lead to a
/// healthy backend, and says how it is brought down: where one was held,
/// by a request to terminate, the grace period, and a kill unless it has
/// exited by then.
pub fn stop_managed_backend(state: &mut SupervisorState) -> (end: ProcessEnd)
    ensures
        end == process_end(old(state).managed),
        *final(state) == (SupervisorState { managed: false, ..*old(state) }),
{
    let end = end_of(state.managed);
    state.managed = false;
    end
}

/// Requests the stop: the state is marked stopping and not ready, and the
/// managed process is given up. Says how the process is brought down:
/// where one was held, by a request to terminate, the grace period, and a
/// kill unless it has exited by then.
pub fn stop_backend(state: &mut SupervisorState) -> (end: ProcessEnd)
    ensures
        end == process_end(old(state).managed),
        *final(state) == old(state).stopped(),
        old(state).wf() ==> final(state).wf(),
{
    let end = end_of(state.managed);
    state.stopping = true;
    state.ready = false;
    state.managed = false;
    end
}

/// Whether a process that was asked to terminate has to be killed once the
/// grace period is over: unless it is known to have exited.
pub fn must_force_stop(poll: ProcessPoll) -> (kill: bool)
    ensures
        kill == (poll != ProcessPoll::Exited),
{
    match poll {
        ProcessPoll::Exited => false,
        ProcessPoll::Running => true,
        ProcessPoll::Unknown => true,
    }
}

/// The shutdown of the application: a stop of the backend.
pub fn cleanup(state: &mut SupervisorState) -> (end: ProcessEnd)
    ensures
        end == process_end(old(state).managed),
        *final(state) == old(state).stopped(),
        old(state).wf() ==> final(state).wf(),
{
    stop_backend(state)
}

/// What the proxy reads of a state: the backend's port and the readiness.
pub fn proxy_state(state: &SupervisorState) -> (view: ProxyState)
    ensures
        view == (ProxyState { backend_port: state.backend_port, ready: state.ready }),
{
    ProxyState::new(state.backend_port, state.ready)
}

/// What the proxy makes of a well-formed state: not ready, every request
/// but the readiness path's gets the "starting" answer, and the readiness
/// path reports "starting" too; ready, the readiness path reports the
/// backend's port and every other request is forwarded to that port.
pub proof fn lemma_proxy_follows_the_supervisor(
    state: SupervisorState,
    path: Seq<char>,
    path_and_query: Option<Seq<char>>,
    lines: Seq<(Seq<char>, Seq<u8>)>,
)
    requires
        state.wf(),
    ensures
        ({
            let view = ProxyState { backend_port: state.backend_port, ready: state.ready };
            let decision = proxy_decision(view, path, path_and_query, lines);
            &&& !state.ready ==> decision == DecisionView::Respond(
                ready_answer(false, state.backend_port),
            )
            &&& state.ready && path == READY_PATH@ ==> decision == DecisionView::Respond(
                ready_answer(true, state.backend_port),
            )
            &&& state.ready && path != READY_PATH@ ==> decision == (DecisionView::Forward {
                url: forward_url(state.backend_port, path_and_query),
                headers: passing_lines(false, lines),
            })
        }),
{
}

/// Once the loop has ended it stays ended: whatever events follow, the
/// state does not change, so nothing is probed, adopted or launched any more.
pub proof fn lemma_exit_is_final(state: SupervisorState, events: Seq<SupervisorEvent>)
    requires
        state.pending == SupervisorAction::Exit,
        !state.supervisor_running,
    ensures
        state.run(events) == state,
    decreases events.len(),
{
    if events.len() > 0 {
        lemma_exit_is_final(state, events.drop_last());
    }
}

/// A loop counts as running until the step that ends it: a step that
/// asks for anything but the exit leaves the mark as it is, and the step
/// that asks for the exit clears it.
pub proof fn lemma_running_until_exit(state: SupervisorState, event: SupervisorEvent)
    ensures
        state.next(event).1 != SupervisorAction::Exit ==> state.next(event).0.supervisor_running
            == state.supervisor_running,
        state.next(event).1 == SupervisorAction::Exit ==> !state.next(event).0.supervisor_running,
{
}

/// Over any sequence of events: a loop that ran at the beginning and has
/// not been told to exit still counts as running at the end.
pub proof fn lemma_running_while_not_exited(state: SupervisorState, events: Seq<SupervisorEvent>)
    requires
        state.supervisor_running,
        state.run(events).pending != SupervisorAction::Exit,
    ensures
        state.run(events).supervisor_running,
    decreases events.len(),
{
    if events.len() > 0 {
        let before = state.run(events.drop_last());
        if before.pending != SupervisorAction::Exit {
            lemma_running_while_not_exited(state, events.drop_last());
        }
    }
}

/// There is at most one supervisor loop. Once a loop has been claimed, a
/// further start, with its claim, spawns nothing and leaves alone what the
/// loop writes; and that holds after any events the loop has taken, as long
/// as it has not been told to exit.
pub proof fn lemma_one_supervisor(
    state: SupervisorState,
    mode: ServerMode,
    events: Seq<SupervisorEvent>,
)
    requires
        state.claimed().0.run(events).pending != SupervisorAction::Exit,
    ensures
        ({
            let running = state.claimed().0.run(events);
            let again = running.started(mode).0;
            &&& running.supervisor_running
            &&& again.supervised() == running.supervised()
            &&& again.claimed().1 == SupervisorClaim::AlreadyRunning
            &&& again.claimed().0 == again
        }),
{
    lemma_running_while_not_exited(state.claimed().0, events);
}

/// A loop that has ended can be followed by a new one: after the step that
/// asks for the exit, a claim spawns a loop again.
pub proof fn lemma_new_supervisor_after_exit(state: SupervisorState, event: SupervisorEvent)
    requires
        state.next(event).1 == SupervisorAction::Exit,
    ensures
        state.next(event).0.claimed().1 == SupervisorClaim::Spawn,
        state.next(event).0.claimed().0.pending == (SupervisorAction::Sleep { ms: 0 }),
{
}

/// Starting twice binds once: a start that follows a start, with nothing
/// in between that failed, goes on without binding, and leaves the proxy
/// on the same stable port.
pub proof fn lemma_second_start_does_not_bind(state: SupervisorState, mode: ServerMode)
    ensures
        state.started(mode).0.started(mode).1 == StartStep::RunSupervisor,
        state.started(mode).0.started(mode).0.proxy_port == state.started(mode).0.proxy_port,
        state.started(mode).0.started(mode).0.proxy_started,
        !state.proxy_started ==> state.started(mode).1 == (StartStep::BindProxy {
            port: ports::spec_backend_port(mode),
        }),
{
}

/// A requested stop ends the loop at the next pass, and the loop stays ended.
pub proof fn lemma_stop_ends_the_loop(state: SupervisorState, event: SupervisorEvent)
    requires
        state.pending is Sleep,
    ensures
        state.stopped().next(SupervisorEvent::Woke).1 == SupervisorAction::Exit,
        state.stopped().next(SupervisorEvent::Woke).0.next(event).1 == SupervisorAction::Exit,
        !state.stopped().next(SupervisorEvent::Woke).0.ready,
{
}

} // verus!
