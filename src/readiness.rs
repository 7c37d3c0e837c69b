use vstd::prelude::*;

use crate::config::StackStartup;
use crate::error::{is_timed_out, StackError};

verus! {

/// Time between two probes of a port that was not ready.
pub const POLL_INTERVAL_MS: u64 = 250;

/// How long each port is given to become ready.
pub const READY_TIMEOUT_MS: u64 = 120000;

/// What to do next while checking that every port is ready.
#[derive(Debug, PartialEq, Eq, Structural)]
pub enum ProbeStep {
    /// Try one connection to this port and report whether it succeeded.
    Probe(u16),
    /// The check is over, with this answer.
    Answer(bool),
}

pub open spec fn all_true(s: Seq<bool>) -> bool {
    forall|i: int| 0 <= i < s.len() ==> #[trigger] s[i]
}

/// Given the outcomes so far of probing `ports` in order, the next step: stop
/// at the first failure, else probe the next port, else answer that all are ready.
pub fn all_ready_step(ports: &Vec<u16>, results: &Vec<bool>) -> (r: ProbeStep)
    ensures
        !all_true(results@) ==> r == ProbeStep::Answer(false),
        all_true(results@) && results@.len() < ports@.len() ==> r == ProbeStep::Probe(
            ports@[results@.len() as int],
        ),
        all_true(results@) && results@.len() >= ports@.len() ==> r == ProbeStep::Answer(true),
{
    let mut i: usize = 0;
    while i < results.len()
        invariant
            i <= results@.len(),
            all_true(results@.subrange(0, i as int)),
        decreases results.len() - i,
    {
        if !results[i] {
            return ProbeStep::Answer(false);
        }
        assert(results@.subrange(0, i + 1) =~= results@.subrange(0, i as int).push(results@[i as int]));
        i = i + 1;
    }
    assert(results@.subrange(0, i as int) =~= results@);
    if results.len() < ports.len() {
        ProbeStep::Probe(ports[results.len()])
    } else {
        ProbeStep::Answer(true)
    }
}

/// The server port, then the client port.
pub open spec fn service_ports(startup: StackStartup) -> Seq<u16> {
    seq![startup.server_port, startup.client_port]
}

/// Whether both services are up, as a sequence of probes: server port first,
/// client port only if the server answered.
pub fn are_services_ready(startup: &StackStartup, results: &Vec<bool>) -> (r: ProbeStep)
    ensures
        !all_true(results@) ==> r == ProbeStep::Answer(false),
        all_true(results@) && results@.len() == 0 ==> r == ProbeStep::Probe(startup.server_port),
        all_true(results@) && results@.len() == 1 ==> r == ProbeStep::Probe(startup.client_port),
        all_true(results@) && results@.len() >= 2 ==> r == ProbeStep::Answer(true),
{
    let ports = vec![startup.server_port, startup.client_port];
    all_ready_step(&ports, results)
}

/// What the caller observed since the last action.
pub enum WaitEvent {
    /// The monotonic clock reads this many milliseconds.
    Clock(u64),
    /// The probe of the current port succeeded or failed.
    Probed(bool),
    /// The requested pause is over.
    Slept,
}

/// What the caller is asked to do next while waiting for the services.
#[derive(Debug)]
pub enum WaitAction {
    /// Read the monotonic clock and report it.
    ReadClock,
    /// Try one connection to this port.
    Probe(u16),
    /// Pause for this many milliseconds.
    Sleep(u64),
    /// Every port has accepted a connection.
    Finished,
    /// The wait is over without success.
    Failed(StackError),
}

/// Waits for a list of ports in turn, each with its own deadline that is set
/// by the first clock reading for that port.
pub struct ServiceWait {
    pub host: String,
    pub ports: Vec<u16>,
    /// Ports before this one have been found ready.
    pub index: usize,
    /// Deadline of the current port, once the clock has been read for it.
    pub deadline: Option<u64>,
    /// The latest clock reading.
    pub last_clock: u64,
    pub timeout_ms: u64,
}

/// The pause after a failed probe: the polling interval, cut short so that it
/// ends no later than the deadline.
pub open spec fn pause_before(deadline: u64, now: u64) -> u64 {
    if deadline - now < POLL_INTERVAL_MS {
        (deadline - now) as u64
    } else {
        POLL_INTERVAL_MS
    }
}

/// `now + timeout`, held at the largest clock value.
pub open spec fn deadline_from(now: u64, timeout: u64) -> u64 {
    if now as int + timeout as int > u64::MAX as int {
        u64::MAX
    } else {
        (now + timeout) as u64
    }
}

impl ServiceWait {
    /// A wait for the server port, then the client port, of `startup`.
    pub fn new(startup: &StackStartup, timeout_ms: u64) -> (w: ServiceWait)
        ensures
            w.host@ == startup.host@,
            w.ports@ == service_ports(*startup),
            w.index == 0,
            w.deadline is None,
            w.last_clock == 0,
            w.timeout_ms == timeout_ms,
    {
        let ports = vec![startup.server_port, startup.client_port];
        assert(ports@ =~= service_ports(*startup));
        ServiceWait { host: startup.host.clone(), ports, index: 0, deadline: None, last_clock: 0, timeout_ms }
    }

    /// The first action of the wait.
    pub fn start(&self) -> (r: WaitAction)
        ensures
            self.index < self.ports@.len() ==> r is ReadClock,
            self.index >= self.ports@.len() ==> r is Finished,
    {
        if self.index < self.ports.len() {
            WaitAction::ReadClock
        } else {
            WaitAction::Finished
        }
    }
}

/// Advances the wait by one observation. The clock is compared with the
/// deadline before every probe, so no probe starts after the deadline; a
/// failed probe is followed by a pause that ends by the deadline at the
/// latest; a successful probe moves on to the next port at once.
pub fn wait_for_services(wait: &mut ServiceWait, event: WaitEvent) -> (r: WaitAction)
    ensures
        final(wait).host == old(wait).host,
        final(wait).ports == old(wait).ports,
        final(wait).timeout_ms == old(wait).timeout_ms,
        old(wait).index >= old(wait).ports@.len() ==> r is Finished && *final(wait) == *old(wait),
        old(wait).index < old(wait).ports@.len() ==> match event {
            WaitEvent::Clock(now) => {
                let deadline = match old(wait).deadline {
                    Some(d) => d,
                    None => deadline_from(now, old(wait).timeout_ms),
                };
                &&& final(wait).index == old(wait).index
                &&& final(wait).deadline == Some(deadline)
                &&& final(wait).last_clock == now
                &&& now < deadline ==> r == WaitAction::Probe(old(wait).ports@[old(wait).index as int])
                &&& now >= deadline ==> r is Failed && is_timed_out(
                    r->Failed_0,
                    old(wait).host@,
                    old(wait).ports@[old(wait).index as int],
                )
            },
            WaitEvent::Probed(true) => {
                &&& final(wait).index == old(wait).index + 1
                &&& final(wait).deadline is None
                &&& final(wait).last_clock == old(wait).last_clock
                &&& final(wait).index == old(wait).ports@.len() ==> r is Finished
                &&& final(wait).index < old(wait).ports@.len() ==> r is ReadClock
            },
            WaitEvent::Probed(false) => {
                &&& *final(wait) == *old(wait)
                &&& old(wait).deadline is Some && old(wait).last_clock < old(wait).deadline->Some_0
                    ==> r == WaitAction::Sleep(
                    pause_before(old(wait).deadline->Some_0, old(wait).last_clock),
                )
                &&& !(old(wait).deadline is Some && old(wait).last_clock < old(wait).deadline->Some_0)
                    ==> r is ReadClock
                &&& r is Sleep ==> old(wait).last_clock + r->Sleep_0 <= old(wait).deadline->Some_0
            },
            WaitEvent::Slept => {
                &&& *final(wait) == *old(wait)
                &&& r is ReadClock
            },
        },
{
    if wait.index >= wait.ports.len() {
        return WaitAction::Finished;
    }
    match event {
        WaitEvent::Clock(now) => {
            let deadline = match wait.deadline {
                Some(d) => d,
                None => if now > u64::MAX - wait.timeout_ms {
                    u64::MAX
                } else {
                    now + wait.timeout_ms
                },
            };
            wait.deadline = Some(deadline);
            wait.last_clock = now;
            let port = wait.ports[wait.index];
            if now < deadline {
                WaitAction::Probe(port)
            } else {
                WaitAction::Failed(StackError::TimedOut { host: wait.host.clone(), port })
            }
        },
        WaitEvent::Probed(ready) => {
            if ready {
                wait.index = wait.index + 1;
                wait.deadline = None;
                if wait.index == wait.ports.len() {
                    WaitAction::Finished
                } else {
                    WaitAction::ReadClock
                }
            } else {
                match wait.deadline {
                    Some(d) => if wait.last_clock < d {
                        let left = d - wait.last_clock;
                        if left < POLL_INTERVAL_MS {
                            WaitAction::Sleep(left)
                        } else {
                            WaitAction::Sleep(POLL_INTERVAL_MS)
                        }
                    } else {
                        WaitAction::ReadClock
                    },
                    None => WaitAction::ReadClock,
                }
            }
        },
        WaitEvent::Slept => WaitAction::ReadClock,
    }
}

} // verus!
