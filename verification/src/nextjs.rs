//! The frontend server: the port it is reached on, and the decisions of
//! finding a port and of stopping it.

use crate::backend::{must_force_stop, ProcessPoll};
use crate::text::{decimal, decimal_string, push_text};
use vstd::prelude::*;
use vstd::string::*;

verus! {

/// The frontend port before anything has set one.
pub const DEFAULT_FRONTEND_PORT: u16 = 3001;

/// How many ports are tried for the frontend, upwards from the configured one.
pub const PORT_ATTEMPTS: u16 = 50;

/// The state of the frontend server.
#[derive(Debug, Clone, Copy, PartialEq, Eq, Structural)]
pub struct FrontendState {
    /// The port the frontend is reached on.
    pub port: u16,
    /// Set once a stop was requested.
    pub stopping: bool,
    /// Whether a frontend process is held.
    pub managed: bool,
}

impl FrontendState {
    /// The state at the start: the default port, nothing running.
    pub fn new() -> (state: FrontendState)
        ensures
            state == (FrontendState { port: DEFAULT_FRONTEND_PORT, stopping: false, managed: false }),
    {
        FrontendState { port: DEFAULT_FRONTEND_PORT, stopping: false, managed: false }
    }
}

/// The address of the frontend.
pub fn get_frontend_url(state: &FrontendState) -> (url: String)
    ensures
        url@ == "http://localhost:"@ + decimal(state.port as nat),
{
    let mut url = String::from_str("http://localhost:");
    let digits = decimal_string(state.port as u64);
    url.append(digits.as_str());
    url
}

/// Sets the port of the frontend.
pub fn set_frontend_port(state: &mut FrontendState, port: u16)
    ensures
        *final(state) == (FrontendState { port, ..*old(state) }),
{
    state.port = port;
}

/// The port of the frontend.
pub fn get_frontend_port(state: &FrontendState) -> (port: u16)
    ensures
        port == state.port,
{
    state.port
}

/// Whether an answer shows a healthy frontend: it answered with status
/// 200 or 304. No answer is no health.
pub fn check_server_health(status: Option<u16>) -> (healthy: bool)
    ensures
        healthy == (status == Some(200u16) || status == Some(304u16)),
{
    match status {
        Some(code) => code == 200 || code == 304,
        None => false,
    }
}

/// The port of the attempt with the given number, counted from zero: the
/// ports are tried upwards from `start_port`, `max_attempts` of them, as
/// far as port numbers go.
pub open spec fn port_of_attempt(start_port: u16, max_attempts: u16, attempt: u16) -> Option<u16> {
    if attempt < max_attempts && start_port + attempt <= u16::MAX {
        Some((start_port + attempt) as u16)
    } else {
        None
    }
}

/// The port to try at an attempt, or `None` when the attempts are used
/// up. The port is taken where nothing healthy answers on it.
pub fn find_available_port(start_port: u16, max_attempts: u16, attempt: u16) -> (port: Option<u16>)
    ensures
        port == port_of_attempt(start_port, max_attempts, attempt),
{
    if attempt < max_attempts && attempt <= u16::MAX - start_port {
        Some(start_port + attempt)
    } else {
        None
    }
}

/// The error text of a search that used up its attempts.
pub fn no_port_message(max_attempts: u16) -> (message: String)
    ensures
        message@ == "Could not find available port after "@ + decimal(max_attempts as nat)
            + " attempts"@,
{
    let mut message = String::from_str("Could not find available port after ");
    let digits = decimal_string(max_attempts as u64);
    message.append(digits.as_str());
    message.append(" attempts");
    message
}

/// The error text of a frontend that did not come up in time.
pub fn wait_timeout_message(timeout_ms: u64) -> (message: String)
    ensures
        message@ == "Server did not start within "@ + decimal(timeout_ms as nat) + "ms"@,
{
    let mut message = String::from_str("Server did not start within ");
    let digits = decimal_string(timeout_ms);
    message.append(digits.as_str());
    message.append("ms");
    message
}

/// Where Node.js is looked for, in this order.
pub open spec fn node_places(windows: bool) -> Seq<Seq<char>> {
    if windows {
        seq![
            "node.exe"@,
            "C:\\Program Files\\nodejs\\node.exe"@,
            "C:\\Program Files (x86)\\nodejs\\node.exe"@,
        ]
    } else {
        seq!["node"@, "/usr/local/bin/node"@, "/usr/bin/node"@, "/opt/homebrew/bin/node"@]
    }
}

/// Lists the places where Node.js is looked for.
pub fn which_node(windows: bool) -> (places: Vec<String>)
    ensures
        places.deep_view() == node_places(windows),
{
    let mut places: Vec<String> = Vec::new();
    assert(places.deep_view() =~= Seq::<Seq<char>>::empty());
    if windows {
        push_text(&mut places, "node.exe");
        push_text(&mut places, "C:\\Program Files\\nodejs\\node.exe");
        push_text(&mut places, "C:\\Program Files (x86)\\nodejs\\node.exe");
    } else {
        push_text(&mut places, "node");
        push_text(&mut places, "/usr/local/bin/node");
        push_text(&mut places, "/usr/bin/node");
        push_text(&mut places, "/opt/homebrew/bin/node");
    }
    assert(places.deep_view() =~= node_places(windows));
    places
}

/// Requests the stop of the frontend: the state is marked stopping and the
/// process is given up. Returns whether there was one, which is then asked
/// to terminate and polled after the grace period.
pub fn stop_nextjs(state: &mut FrontendState) -> (terminate: bool)
    ensures
        terminate == old(state).managed,
        *final(state) == (FrontendState { stopping: true, managed: false, ..*old(state) }),
{
    let terminate = state.managed;
    state.stopping = true;
    state.managed = false;
    terminate
}

/// Whether the frontend process has to be killed once the grace period is over.
pub fn must_force_stop_frontend(poll: ProcessPoll) -> (kill: bool)
    ensures
        kill == (poll != ProcessPoll::Exited),
{
    must_force_stop(poll)
}

/// The shutdown of the application: a stop of the frontend.
pub fn cleanup(state: &mut FrontendState) -> (terminate: bool)
    ensures
        terminate == old(state).managed,
        *final(state) == (FrontendState { stopping: true, managed: false, ..*old(state) }),
{
    stop_nextjs(state)
}

} // verus!
