//! Health probing, detection of a running backend and choice of a free port.
//!
//! Nothing here touches the network. A probe is carried out by the caller,
//! who reports what came back as a [`HealthReply`]; the scans over a port
//! range are explicit state machines that name the next port to try and
//! take the observation for it.

use crate::config::ports;
use crate::config::ServerMode;
use crate::text::{decimal, decimal_string, str_eq};
use vstd::prelude::*;
use vstd::string::*;

verus! {

/// The application name by which a backend identifies itself.
pub const BACKEND_APP_NAME: &'static str = "lifetrace";

/// How many randomly drawn ports are tried before the range is scanned in order.
pub const RANDOM_ATTEMPTS: u8 = 10;

/// The bound on a probe that asks a port who it is, in milliseconds.
pub const IDENTITY_PROBE_TIMEOUT_MS: u64 = 2_000;

/// The bound on the probe that checks a freshly started backend, in milliseconds.
pub const VERIFY_PROBE_TIMEOUT_MS: u64 = 5_000;

/// The first and the last port of the range of a mode.
pub open spec fn spec_backend_port_range(mode: ServerMode) -> (u16, u16) {
    match mode {
        ServerMode::Dev => (ports::DEV_BACKEND_RANGE_START, ports::DEV_BACKEND_RANGE_END),
        ServerMode::Build => (ports::BUILD_BACKEND_RANGE_START, ports::BUILD_BACKEND_RANGE_END),
    }
}

/// The inclusive range of ports in which the backend of a mode lives.
#[verifier::when_used_as_spec(spec_backend_port_range)]
pub fn backend_port_range(mode: ServerMode) -> (range: (u16, u16))
    ensures
        range == spec_backend_port_range(mode),
        range.0 <= range.1,
{
    match mode {
        ServerMode::Dev => (ports::DEV_BACKEND_RANGE_START, ports::DEV_BACKEND_RANGE_END),
        ServerMode::Build => (ports::BUILD_BACKEND_RANGE_START, ports::BUILD_BACKEND_RANGE_END),
    }
}

/// The path of the health endpoint.
pub const HEALTH_PATH: &'static str = "/health";

/// The address that a probe of `port` asks: the health endpoint on the
/// loopback interface.
pub fn health_url(port: u16) -> (url: String)
    ensures
        url@ == "http://127.0.0.1:"@ + decimal(port as nat) + HEALTH_PATH@,
{
    let mut url = String::from_str("http://127.0.0.1:");
    let digits = decimal_string(port as u64);
    url.append(digits.as_str());
    url.append(HEALTH_PATH);
    url
}

/// The body of a health response, as far as it could be read: the
/// application's name and the mode it says it runs in.
#[derive(Debug, Clone)]
pub struct HealthReport {
    pub app: Option<String>,
    pub server_mode: Option<String>,
}

/// What one request to the health endpoint brought back: the status code,
/// and the body where it could be read as a report.
#[derive(Debug, Clone)]
pub struct HealthReply {
    pub status: u16,
    pub report: Option<HealthReport>,
}

/// The three outcomes of a probe.
#[derive(Debug, Clone, Copy, PartialEq, Eq, Structural)]
pub enum ProbeOutcome {
    Unreachable,
    ReachableHealthy,
    ReachableUnhealthy,
}

/// A status code in the success range, 200 to 299.
pub open spec fn is_success(status: u16) -> bool {
    200 <= status && status < 300
}

/// Whether a report names the expected backend application.
pub open spec fn identity_matches(report: HealthReport) -> bool {
    report.app matches Some(app) && app@ == BACKEND_APP_NAME@
}

/// The outcome that a reply stands for; no reply means that the port could
/// not be reached.
pub open spec fn probe_outcome(reply: Option<&HealthReply>) -> ProbeOutcome {
    match reply {
        None => ProbeOutcome::Unreachable,
        Some(r) => if is_success(r.status) {
            ProbeOutcome::ReachableHealthy
        } else {
            ProbeOutcome::ReachableUnhealthy
        },
    }
}

/// Whether a reply shows a healthy backend that identifies itself as expected.
pub open spec fn shows_backend(reply: Option<HealthReply>) -> bool {
    reply matches Some(r) && is_success(r.status) && (r.report matches Some(report)
        && identity_matches(report))
}

/// The reply behind a reference.
pub open spec fn reply_value(reply: Option<&HealthReply>) -> Option<HealthReply> {
    match reply {
        Some(r) => Some(*r),
        None => None,
    }
}

/// Whether a reply shows a healthy backend that identifies itself as expected.
pub open spec fn is_backend_reply(reply: Option<&HealthReply>) -> bool {
    shows_backend(reply_value(reply))
}

fn status_is_success(status: u16) -> (yes: bool)
    ensures
        yes == is_success(status),
{
    200 <= status && status < 300
}

fn report_matches(report: &HealthReport) -> (yes: bool)
    ensures
        yes == identity_matches(*report),
{
    match &report.app {
        Some(app) => str_eq(app.as_str(), BACKEND_APP_NAME),
        None => false,
    }
}

/// Interprets the reply to one probe.
pub fn probe(reply: Option<&HealthReply>) -> (outcome: ProbeOutcome)
    ensures
        outcome == probe_outcome(reply),
{
    match reply {
        None => ProbeOutcome::Unreachable,
        Some(r) => if status_is_success(r.status) {
            ProbeOutcome::ReachableHealthy
        } else {
            ProbeOutcome::ReachableUnhealthy
        },
    }
}

/// Whether a probe found the port healthy: it answered, with a status in the
/// success range.
pub fn check_backend_health(reply: Option<&HealthReply>) -> (healthy: bool)
    ensures
        healthy == (probe_outcome(reply) == ProbeOutcome::ReachableHealthy),
{
    match reply {
        None => false,
        Some(r) => status_is_success(r.status),
    }
}

/// The report of a healthy port, where its body could be read; `None` for
/// an unreachable port, a status outside the success range or an unreadable body.
pub fn identify<'a>(reply: Option<&'a HealthReply>) -> (report: Option<&'a HealthReport>)
    ensures
        match reply {
            Some(r) => if is_success(r.status) {
                match r.report {
                    Some(found) => report == Some(&found),
                    None => report.is_none(),
                }
            } else {
                report.is_none()
            },
            None => report.is_none(),
        },
{
    match reply {
        None => None,
        Some(r) => if status_is_success(r.status) {
            match &r.report {
                Some(found) => Some(found),
                None => None,
            }
        } else {
            None
        },
    }
}

/// Whether a probe found the expected backend: the port answered with a
/// success status and a body that names the backend application.
pub fn is_lifetrace_backend(reply: Option<&HealthReply>) -> (yes: bool)
    ensures
        yes == is_backend_reply(reply),
{
    match identify(reply) {
        Some(report) => report_matches(report),
        None => false,
    }
}

/// The complaint about a port whose answer names another application.
pub open spec fn not_a_backend_message(port: u16) -> Seq<char> {
    "Backend at port "@ + decimal(port as nat) + " is not a LifeTrace server"@
}

/// Whether a reply is an answer that does not identify the backend: the
/// port answered, and either its body could not be read as a report or the
/// report does not name the backend application. The status code plays no
/// part here, and a port that gave no answer at all is not counted.
pub open spec fn is_unrecognised_reply(reply: Option<&HealthReply>) -> bool {
    reply matches Some(r) && !(r.report matches Some(report) && identity_matches(report))
}

/// Whether a reply declares a run mode other than the expected one. A
/// reply without a readable report, or a report without a mode, declares none.
pub open spec fn declares_other_mode(reply: Option<&HealthReply>, expected_mode: Seq<char>) -> bool {
    reply matches Some(r) && (r.report matches Some(report) && (report.server_mode matches Some(
        mode,
    ) && mode@ != expected_mode))
}

/// Whether a report declares a mode other than the expected one.
pub fn mode_mismatch(report: &HealthReport, expected_mode: &str) -> (differs: bool)
    ensures
        differs == (report.server_mode matches Some(mode) && mode@ != expected_mode@),
{
    match &report.server_mode {
        Some(mode) => !str_eq(mode.as_str(), expected_mode),
        None => false,
    }
}

/// Checks the identity of a freshly started backend. An answer that does
/// not identify the backend fails the check: a body that cannot be read as
/// a report, or a report that names another application or none. A port
/// that gave no answer passes. A passing check says whether the declared
/// mode agrees with the expected one, which is worth a warning and nothing
/// more.
pub fn verify_backend_mode(port: u16, expected_mode: &str, reply: Option<&HealthReply>) -> (checked:
    Result<bool, String>)
    ensures
        checked.is_err() == is_unrecognised_reply(reply),
        checked matches Err(message) ==> message@ == not_a_backend_message(port),
        checked matches Ok(agrees) ==> agrees == !declares_other_mode(reply, expected_mode@),
{
    match reply {
        Some(r) => {
            match &r.report {
                Some(report) => {
                    if report_matches(report) {
                        return Ok(!mode_mismatch(report, expected_mode));
                    }
                },
                None => {},
            }
            let mut message = String::from_str("Backend at port ");
            let digits = decimal_string(port as u64);
            message.append(digits.as_str());
            message.append(" is not a LifeTrace server");
            Err(message)
        },
        None => Ok(true),
    }
}

/// A scan of a port range for a backend that is already running. The ports
/// from `next` to `end` are still to be probed, in ascending order; the scan
/// is over once `next` has passed `end`.
#[derive(Debug, Clone, Copy, PartialEq, Eq, Structural)]
pub struct DetectScan {
    pub next: u32,
    pub end: u16,
}

impl DetectScan {
    /// Whether the scan has ended, by a find or by running out of ports.
    pub open spec fn finished(self) -> bool {
        self.next > self.end
    }

    /// The port whose answer the scan waits for.
    pub open spec fn spec_candidate(self) -> Option<u16> {
        if self.next <= self.end {
            Some(self.next as u16)
        } else {
            None
        }
    }

    /// The scan after the answer for its candidate: over where the answer
    /// came from the backend, one port further where it did not.
    pub open spec fn after(self, matched: bool) -> DetectScan {
        if self.finished() {
            self
        } else if matched {
            DetectScan { next: (self.end + 1) as u32, end: self.end }
        } else {
            DetectScan { next: (self.next + 1) as u32, end: self.end }
        }
    }

    /// The port that the scan settles on when exactly the ports in
    /// `compatible` answer as the backend.
    pub open spec fn outcome(self, compatible: Set<int>) -> Option<u16>
        decreases self.end + 1 - self.next,
    {
        if self.next > self.end {
            None
        } else if compatible.contains(self.next as int) {
            Some(self.next as u16)
        } else {
            self.after(false).outcome(compatible)
        }
    }

    /// A scan of the ports from `start` to `end`, both included. With
    /// `start` above `end` there is nothing to scan.
    pub fn new(start: u16, end: u16) -> (scan: DetectScan)
        ensures
            scan == (DetectScan { next: start as u32, end }),
    {
        DetectScan { next: start as u32, end }
    }

    /// The port to probe now, or `None` once the scan is over.
    pub fn candidate(&self) -> (port: Option<u16>)
        ensures
            port == self.spec_candidate(),
    {
        if self.next <= self.end as u32 {
            Some(self.next as u16)
        } else {
            None
        }
    }

    /// Takes the reply of the candidate port. Where it shows the backend,
    /// the port is returned and the scan is over; else the scan moves to the
    /// next port. On a finished scan nothing changes.
    pub fn observe(&mut self, reply: Option<&HealthReply>) -> (found: Option<u16>)
        ensures
            *final(self) == old(self).after(is_backend_reply(reply)),
            found == (if is_backend_reply(reply) {
                old(self).spec_candidate()
            } else {
                None
            }),
    {
        if self.next > self.end as u32 {
            return None;
        }
        if is_lifetrace_backend(reply) {
            let port = self.next as u16;
            self.next = self.end as u32 + 1;
            Some(port)
        } else {
            self.next = self.next + 1;
            None
        }
    }
}

/// Begins the search for a backend that already runs in the range of `mode`.
pub fn detect_running_backend_port(mode: ServerMode) -> (scan: DetectScan)
    ensures
        scan == (DetectScan {
            next: spec_backend_port_range(mode).0 as u32,
            end: spec_backend_port_range(mode).1,
        }),
{
    let (start, end) = backend_port_range(mode);
    DetectScan::new(start, end)
}

/// The reply of the port `port` in a list that holds the replies of the
/// ports from `start` upwards; a port beyond the list did not answer.
pub open spec fn reply_of(start: u16, replies: Seq<Option<HealthReply>>, port: int) -> Option<
    HealthReply,
> {
    if start <= port < start + replies.len() {
        replies[port - start]
    } else {
        None
    }
}

/// The ports whose reply shows the backend.
pub open spec fn backend_ports(start: u16, replies: Seq<Option<HealthReply>>) -> Set<int> {
    Set::new(|port: int| shows_backend(reply_of(start, replies, port)))
}

/// Finds the running backend among ports whose replies are known:
/// `replies` holds what the ports from `start` upwards answered, in their
/// order, `None` for a port that did not answer. The result is the lowest
/// port up to `end` whose reply shows the backend.
pub fn detect_running(start: u16, end: u16, replies: &Vec<Option<HealthReply>>) -> (found: Option<u16>)
    ensures
        found == (DetectScan { next: start as u32, end }).outcome(backend_ports(start, replies@)),
        match found {
            Some(port) => {
                &&& start <= port <= end
                &&& shows_backend(reply_of(start, replies@, port as int))
                &&& forall|q: int| start <= q < port ==> !shows_backend(reply_of(start, replies@, q))
            },
            None => forall|q: int| start <= q <= end ==> !shows_backend(
                reply_of(start, replies@, q),
            ),
        },
{
    let ghost compatible = backend_ports(start, replies@);
    let ghost whole = DetectScan { next: start as u32, end };
    proof {
        lemma_detect_returns_lowest(whole, compatible);
    }
    let mut scan = DetectScan::new(start, end);
    loop
        invariant
            scan.end == end,
            start <= scan.next,
            compatible == backend_ports(start, replies@),
            whole == (DetectScan { next: start as u32, end }),
            whole.outcome(compatible) == scan.outcome(compatible),
        decreases scan.end + 1 - scan.next,
    {
        proof {
            lemma_detect_returns_lowest(whole, compatible);
            assert forall|q: int|
                compatible.contains(q) == #[trigger] shows_backend(
                    reply_of(start, replies@, q),
                ) by {}
        }
        match scan.candidate() {
            None => {
                return None;
            },
            Some(port) => {
                let index: usize = (port - start) as usize;
                let reply = if index < replies.len() {
                    match &replies[index] {
                        Some(reply) => Some(reply),
                        None => None,
                    }
                } else {
                    None
                };
                assert(reply_value(reply) == reply_of(start, replies@, port as int));
                assert(compatible.contains(port as int) == is_backend_reply(reply));
                match scan.observe(reply) {
                    Some(found) => {
                        return Some(found);
                    },
                    None => {},
                }
            },
        }
    }
}

/// The scan settles on the lowest compatible port that is still ahead of it:
/// a port it returns is compatible and nothing below it in the remaining
/// range is, and it returns none only where no remaining port is compatible.
pub proof fn lemma_detect_returns_lowest(scan: DetectScan, compatible: Set<int>)
    ensures
        match scan.outcome(compatible) {
            Some(port) => {
                &&& scan.next <= port <= scan.end
                &&& compatible.contains(port as int)
                &&& forall|q: int| scan.next <= q < port ==> !compatible.contains(q)
            },
            None => forall|q: int| scan.next <= q <= scan.end ==> !compatible.contains(q),
        },
    decreases scan.end + 1 - scan.next,
{
    if scan.next <= scan.end && !compatible.contains(scan.next as int) {
        lemma_detect_returns_lowest(scan.after(false), compatible);
    }
}

/// Every reply moves the scan on, so a scan probes each port of its range
/// at most once and is over after as many replies as the range has ports.
pub proof fn lemma_scan_advances(scan: DetectScan, matched: bool)
    requires
        !scan.finished(),
    ensures
        scan.after(matched).next > scan.next,
        scan.after(matched).end == scan.end,
        scan.after(matched).next <= scan.end + 1,
{
}

/// Of two compatible backends in the range the higher one is never
/// adopted, and the lower one is adopted where nothing compatible lies
/// below it.
pub proof fn lemma_detect_prefers_lower(start: u16, end: u16, low: u16, high: u16, compatible: Set<int>)
    requires
        start <= low < high <= end,
        compatible.contains(low as int),
        compatible.contains(high as int),
    ensures
        (DetectScan { next: start as u32, end }).outcome(compatible) matches Some(port) && port
            <= low,
        (forall|q: int| start <= q < low ==> !compatible.contains(q)) ==> (DetectScan {
            next: start as u32,
            end,
        }).outcome(compatible) == Some(low),
{
    lemma_detect_returns_lowest(DetectScan { next: start as u32, end }, compatible);
}

/// Draws a port from `start..=end` by `rand::Rng::gen_range` on the
/// thread-local generator of `rand::thread_rng`. The draw is random: the
/// contract says only that it lies in the range. An empty range, on which
/// `gen_range` panics, is kept out.
#[verifier::external_body]
fn random_port(start: u16, end: u16) -> (port: u16)
    requires
        start <= end,
    ensures
        start <= port <= end,
{
    rand::Rng::gen_range(&mut rand::thread_rng(), start..=end)
}

/// The search for a port on which a new backend can listen: first a number
/// of random draws from the range, then the whole range in ascending order.
/// `draws_left` counts the draws still to come, `scan_next` is the next port
/// of the ordered scan.
#[derive(Debug, Clone, Copy, PartialEq, Eq, Structural)]
pub struct PortPick {
    pub start: u16,
    pub end: u16,
    pub draws_left: u8,
    pub scan_next: u32,
}

impl PortPick {
    /// Whether the next candidate is a random draw.
    pub open spec fn drawing(self) -> bool {
        self.draws_left > 0 && self.start <= self.end
    }

    /// The search after one draw.
    pub open spec fn after_draw(self) -> PortPick {
        PortPick { draws_left: (self.draws_left - 1) as u8, ..self }
    }

    /// The candidate of the ordered scan, if any port is left.
    pub open spec fn scan_candidate(self) -> Option<u16> {
        if self.scan_next <= self.end {
            Some(self.scan_next as u16)
        } else {
            None
        }
    }

    /// The search after one step of the ordered scan.
    pub open spec fn after_scan(self) -> PortPick {
        if self.scan_next <= self.end {
            PortPick { scan_next: (self.scan_next + 1) as u32, ..self }
        } else {
            self
        }
    }

    /// The port that the search ends with when the random draws come out as
    /// `draws`, in this order, and exactly the ports in `free` can be bound:
    /// the first candidate that is free, or `None` when the candidates run out.
    pub open spec fn outcome(self, draws: Seq<u16>, free: Set<int>) -> Option<u16>
        decreases self.draws_left, self.end + 1 - self.scan_next,
    {
        if self.drawing() {
            if free.contains(draws[0] as int) {
                Some(draws[0])
            } else {
                self.after_draw().outcome(draws.drop_first(), free)
            }
        } else if self.scan_next <= self.end {
            if free.contains(self.scan_next as int) {
                Some(self.scan_next as u16)
            } else {
                self.after_scan().outcome(draws, free)
            }
        } else {
            None
        }
    }

    /// A search of the ports from `start` to `end`, both included. With
    /// `start` above `end` the range is empty and the search has no candidate.
    pub fn new(start: u16, end: u16) -> (pick: PortPick)
        ensures
            pick == (PortPick { start, end, draws_left: RANDOM_ATTEMPTS, scan_next: start as u32 }),
    {
        PortPick { start, end, draws_left: RANDOM_ATTEMPTS, scan_next: start as u32 }
    }

    /// The next candidate when the generator, if it is asked, hands out
    /// `draw`. During the random phase the candidate is the draw itself;
    /// afterwards it is the next port of the ordered scan, and `None` once
    /// the scan has passed the end of the range.
    pub fn candidate_for(&mut self, draw: u16) -> (candidate: Option<u16>)
        ensures
            old(self).drawing() ==> candidate == Some(draw) && *final(self) == old(self).after_draw(),
            !old(self).drawing() ==> candidate == old(self).scan_candidate() && *final(self) == old(
                self,
            ).after_scan(),
    {
        if self.draws_left > 0 && self.start <= self.end {
            self.draws_left = self.draws_left - 1;
            Some(draw)
        } else if self.scan_next <= self.end as u32 {
            let port = self.scan_next as u16;
            self.scan_next = self.scan_next + 1;
            Some(port)
        } else {
            None
        }
    }

    /// The next port to try, or `None` when every candidate has been handed
    /// out. A random candidate is some port of the range; the ordered scan
    /// is exact.
    pub fn next_candidate(&mut self) -> (candidate: Option<u16>)
        ensures
            old(self).drawing() ==> *final(self) == old(self).after_draw() && (candidate matches Some(
                port,
            ) && old(self).start <= port <= old(self).end),
            !old(self).drawing() ==> candidate == old(self).scan_candidate() && *final(self) == old(
                self,
            ).after_scan(),
    {
        if self.draws_left > 0 && self.start <= self.end {
            let draw = random_port(self.start, self.end);
            self.candidate_for(draw)
        } else {
            self.candidate_for(self.start)
        }
    }

    /// The error text of a search that found no port.
    pub fn exhausted_message(&self) -> (message: String)
        ensures
            message@ == no_port_message(self.start, self.end),
    {
        let mut message = String::from_str("No available backend port in range ");
        let low = decimal_string(self.start as u64);
        message.append(low.as_str());
        message.append("-");
        let high = decimal_string(self.end as u64);
        message.append(high.as_str());
        message
    }
}

/// The complaint about a range without a free port.
pub open spec fn no_port_message(start: u16, end: u16) -> Seq<char> {
    "No available backend port in range "@ + decimal(start as nat) + "-"@ + decimal(end as nat)
}

/// Begins the search for a free port in the range of `mode`.
pub fn pick_backend_port(mode: ServerMode) -> (pick: PortPick)
    ensures
        pick == (PortPick {
            start: spec_backend_port_range(mode).0,
            end: spec_backend_port_range(mode).1,
            draws_left: RANDOM_ATTEMPTS,
            scan_next: spec_backend_port_range(mode).0 as u32,
        }),
{
    let (start, end) = backend_port_range(mode);
    PortPick::new(start, end)
}

/// A port that the search ends with is free, and it lies in the range as
/// long as the draws do and the ordered scan has not left the range.
pub proof fn lemma_pick_is_free_and_in_range(pick: PortPick, draws: Seq<u16>, free: Set<int>)
    requires
        pick.start <= pick.scan_next,
        draws.len() >= pick.draws_left,
        forall|k: int| 0 <= k < draws.len() ==> pick.start <= #[trigger] draws[k] <= pick.end,
    ensures
        pick.outcome(draws, free) matches Some(port) ==> free.contains(port as int) && pick.start
            <= port <= pick.end,
    decreases pick.draws_left, pick.end + 1 - pick.scan_next,
{
    if pick.drawing() {
        if !free.contains(draws[0] as int) {
            let rest = draws.drop_first();
            assert forall|k: int| 0 <= k < rest.len() implies pick.start <= #[trigger] rest[k]
                <= pick.end by {
                assert(rest[k] == draws[k + 1]);
            }
            lemma_pick_is_free_and_in_range(pick.after_draw(), rest, free);
        }
    } else if pick.scan_next <= pick.end {
        if !free.contains(pick.scan_next as int) {
            lemma_pick_is_free_and_in_range(pick.after_scan(), draws, free);
        }
    }
}

/// The search comes back empty-handed only after the ordered scan has found
/// every port that was still ahead of it occupied.
pub proof fn lemma_pick_fails_only_when_occupied(pick: PortPick, draws: Seq<u16>, free: Set<int>)
    requires
        pick.outcome(draws, free).is_none(),
    ensures
        forall|q: int| pick.scan_next <= q <= pick.end ==> !free.contains(q),
    decreases pick.draws_left, pick.end + 1 - pick.scan_next,
{
    if pick.drawing() {
        lemma_pick_fails_only_when_occupied(pick.after_draw(), draws.drop_first(), free);
    } else if pick.scan_next <= pick.end {
        lemma_pick_fails_only_when_occupied(pick.after_scan(), draws, free);
    }
}

/// A fresh search over a range fails exactly when no port of the range is
/// free, whatever the random draws from the range were.
pub proof fn lemma_pick_fails_iff_range_occupied(start: u16, end: u16, draws: Seq<u16>, free: Set<int>)
    requires
        draws.len() >= RANDOM_ATTEMPTS,
        forall|k: int| 0 <= k < draws.len() ==> start <= #[trigger] draws[k] <= end,
    ensures
        (PortPick { start, end, draws_left: RANDOM_ATTEMPTS, scan_next: start as u32 }).outcome(
            draws,
            free,
        ).is_none() <==> (forall|q: int| start <= q <= end ==> !free.contains(q)),
{
    let pick = PortPick { start, end, draws_left: RANDOM_ATTEMPTS, scan_next: start as u32 };
    if pick.outcome(draws, free).is_none() {
        lemma_pick_fails_only_when_occupied(pick, draws, free);
    } else {
        lemma_pick_is_free_and_in_range(pick, draws, free);
    }
}

/// Whether the port `port` can be bound, by a list that says so for the
/// ports from `start` upwards; a port beyond the list cannot.
pub open spec fn free_in(start: u16, free: Seq<bool>, port: int) -> bool {
    start <= port < start + free.len() && free[port - start]
}

/// Picks a free port among ports whose availability is known: `free` says
/// for the ports from `start` upwards, in their order, whether they can be
/// bound. Random draws come first, so which free port is picked is open;
/// but a port is picked whenever one of the range is free, and the error
/// comes exactly when none is.
pub fn pick_free_port(start: u16, end: u16, free: &Vec<bool>) -> (picked: Result<u16, String>)
    ensures
        picked.is_err() <==> (forall|q: int| start <= q <= end ==> !free_in(start, free@, q)),
        picked matches Ok(port) ==> start <= port <= end && free_in(start, free@, port as int),
        picked matches Err(message) ==> message@ == no_port_message(start, end),
{
    let mut pick = PortPick::new(start, end);
    loop
        invariant
            pick.start == start,
            pick.end == end,
            start <= pick.scan_next,
            forall|q: int| start <= q < pick.scan_next ==> !free_in(start, free@, q),
        decreases pick.draws_left, pick.end + 1 - pick.scan_next,
    {
        match pick.next_candidate() {
            None => {
                return Err(pick.exhausted_message());
            },
            Some(port) => {
                assert(start <= port <= end);
                let index: usize = (port - start) as usize;
                if index < free.len() && free[index] {
                    assert(free_in(start, free@, port as int));
                    return Ok(port);
                }
                assert(!free_in(start, free@, port as int));
            },
        }
    }
}

/// The wait for a started backend to become healthy: probes of `port`, each
/// bounded by `health_timeout_ms`, `retry_ms` apart, given up once
/// `timeout_secs` have passed.
#[derive(Debug, Clone, Copy, PartialEq, Eq, Structural)]
pub struct ReadyWait {
    pub port: u16,
    pub timeout_secs: u64,
    pub health_timeout_ms: u64,
    pub retry_ms: u64,
}

/// What the waiting caller does next.
#[derive(Debug, Clone, Copy, PartialEq, Eq, Structural)]
pub enum WaitStep {
    /// Probe the port, with the given bound on the probe.
    Probe { port: u16, timeout_ms: u64 },
    /// Pause, then ask again with the time that has passed.
    Pause { ms: u64 },
    /// The backend is healthy.
    Ready,
    /// The backend did not become healthy in time.
    TimedOut,
}

impl ReadyWait {
    /// Whether the wait is over after `elapsed_ms` milliseconds.
    pub open spec fn expired(self, elapsed_ms: u64) -> bool {
        elapsed_ms >= self.timeout_secs * 1000
    }

    /// The step at the start and after each pause, `elapsed_ms` milliseconds
    /// into the wait: another probe while time is left, else the timeout.
    pub fn poll(&self, elapsed_ms: u64) -> (step: WaitStep)
        ensures
            step == (if self.expired(elapsed_ms) {
                WaitStep::TimedOut
            } else {
                WaitStep::Probe { port: self.port, timeout_ms: self.health_timeout_ms }
            }),
    {
        if elapsed_ms / 1000 < self.timeout_secs {
            WaitStep::Probe { port: self.port, timeout_ms: self.health_timeout_ms }
        } else {
            WaitStep::TimedOut
        }
    }

    /// The step after a probe: done where it found the port healthy, else a
    /// pause of the retry interval.
    pub fn probed(&self, healthy: bool) -> (step: WaitStep)
        ensures
            step == (if healthy {
                WaitStep::Ready
            } else {
                WaitStep::Pause { ms: self.retry_ms }
            }),
    {
        if healthy {
            WaitStep::Ready
        } else {
            WaitStep::Pause { ms: self.retry_ms }
        }
    }
}

/// Begins the wait for the backend on `port`.
pub fn wait_for_backend(port: u16, timeout_secs: u64, health_timeout_ms: u64, retry_ms: u64) -> (wait:
    ReadyWait)
    ensures
        wait == (ReadyWait { port, timeout_secs, health_timeout_ms, retry_ms }),
{
    ReadyWait { port, timeout_secs, health_timeout_ms, retry_ms }
}

/// The error text of a wait that timed out.
pub fn startup_timeout_message() -> (message: String)
    ensures
        message@ == "Backend did not start in time"@,
{
    String::from_str("Backend did not start in time")
}

} // verus!
