//! Waiting for a dev server to answer.
use vstd::prelude::*;

verus! {

/// How often a dev server is probed.
pub const MAX_PROBES: u32 = 30;

/// The pause after a probe that was not answered, in milliseconds.
pub const PROBE_PAUSE_MS: u64 = 200;

/// What is to be done next, or how the waiting ended.
#[derive(Clone, Copy, Debug, PartialEq, Eq, Structural)]
pub enum ProbeAction {
    /// See whether the server's process has ended.
    CheckExit,
    /// Try to connect to the server.
    Connect,
    /// Pause before the next probe.
    Pause,
    /// The server answers.
    Ready,
    /// The server's process has ended.
    ServerExited,
    /// The server has not answered in time.
    TimedOut,
}

/// How the last action came out.
#[derive(Clone, Copy, Debug, PartialEq, Eq, Structural)]
pub enum ProbeEvent {
    /// The process has not ended, the connection was refused, or the pause is over.
    Continue,
    /// The process has ended.
    Exited,
    /// The connection stands.
    Connected,
}

/// The waiting for a dev server: what is being done, and how many probes are left, the current
/// one included.
#[derive(Clone, Copy, Debug, PartialEq, Eq, Structural)]
pub struct ReadyProbe {
    pub action: ProbeAction,
    pub probes_left: u32,
}

/// The waiting is over.
pub open spec fn is_over(action: ProbeAction) -> bool {
    action == ProbeAction::Ready || action == ProbeAction::ServerExited || action
        == ProbeAction::TimedOut
}

/// What the waiting goes on with.
pub open spec fn next_probe(probe: ReadyProbe, event: ProbeEvent) -> ReadyProbe {
    match probe.action {
        ProbeAction::CheckExit => ReadyProbe {
            action: if event == ProbeEvent::Exited {
                ProbeAction::ServerExited
            } else {
                ProbeAction::Connect
            },
            ..probe
        },
        ProbeAction::Connect => ReadyProbe {
            action: if event == ProbeEvent::Connected {
                ProbeAction::Ready
            } else {
                ProbeAction::Pause
            },
            ..probe
        },
        ProbeAction::Pause => if probe.probes_left > 1 {
            ReadyProbe {
                action: ProbeAction::CheckExit,
                probes_left: (probe.probes_left - 1) as u32,
            }
        } else {
            ReadyProbe { action: ProbeAction::TimedOut, probes_left: 0 }
        },
        _ => probe,
    }
}

impl ReadyProbe {
    /// The beginning of the waiting.
    pub fn new() -> (probe: Self)
        ensures
            probe == (ReadyProbe { action: ProbeAction::CheckExit, probes_left: MAX_PROBES }),
    {
        ReadyProbe { action: ProbeAction::CheckExit, probes_left: MAX_PROBES }
    }

    /// Goes on after the last action came out as the event says.
    pub fn wait_ready(&mut self, event: ProbeEvent)
        ensures
            *final(self) == next_probe(*old(self), event),
    {
        match self.action {
            ProbeAction::CheckExit => {
                self.action =
                match event {
                    ProbeEvent::Exited => ProbeAction::ServerExited,
                    _ => ProbeAction::Connect,
                };
            },
            ProbeAction::Connect => {
                self.action =
                match event {
                    ProbeEvent::Connected => ProbeAction::Ready,
                    _ => ProbeAction::Pause,
                };
            },
            ProbeAction::Pause => {
                if self.probes_left > 1 {
                    self.action = ProbeAction::CheckExit;
                    self.probes_left = self.probes_left - 1;
                } else {
                    self.action = ProbeAction::TimedOut;
                    self.probes_left = 0;
                }
            },
            _ => {},
        }
    }
}

/// Whether requests go to a dev server: one was started, and it had not ended when the waiting was
/// over. Otherwise the theme's files are served.
pub fn proxy_mode(started: bool, exited: bool) -> (proxying: bool)
    ensures
        proxying == (started && !exited),
{
    started && !exited
}

/// A bound on the number of actions that are left.
pub open spec fn actions_left(probe: ReadyProbe) -> int {
    match probe.action {
        ProbeAction::CheckExit => 3 * probe.probes_left + 3,
        ProbeAction::Connect => 3 * probe.probes_left + 2,
        ProbeAction::Pause => 3 * probe.probes_left + 1,
        _ => 0,
    }
}

/// The waiting comes to an end: each action brings it nearer.
pub proof fn waiting_ends(probe: ReadyProbe, event: ProbeEvent)
    ensures
        !is_over(probe.action) ==> 0 <= actions_left(next_probe(probe, event)) < actions_left(
            probe,
        ),
        is_over(probe.action) ==> next_probe(probe, event) == probe,
{
}

/// Probes that are neither answered nor find the process ended, in turn.
pub open spec fn unanswered(probe: ReadyProbe, probes: nat) -> ReadyProbe
    decreases probes,
{
    if probes == 0 {
        probe
    } else {
        let before = unanswered(probe, (probes - 1) as nat);
        next_probe(
            next_probe(next_probe(before, ProbeEvent::Continue), ProbeEvent::Continue),
            ProbeEvent::Continue,
        )
    }
}

/// A server that never answers, and does not end, is given up after exactly as many probes as are
/// made, and not before.
pub proof fn silent_server_is_given_up(probes: nat)
    requires
        probes <= MAX_PROBES,
    ensures
        ({
            let start = ReadyProbe { action: ProbeAction::CheckExit, probes_left: MAX_PROBES };
            (unanswered(start, probes).action == ProbeAction::TimedOut) == (probes == MAX_PROBES)
        }),
{
    let start = ReadyProbe { action: ProbeAction::CheckExit, probes_left: MAX_PROBES };
    unanswered_count(start, probes);
}

proof fn unanswered_count(start: ReadyProbe, probes: nat)
    requires
        start.action == ProbeAction::CheckExit,
        probes <= start.probes_left,
        start.probes_left > 0,
    ensures
        probes < start.probes_left ==> unanswered(start, probes) == (ReadyProbe {
            action: ProbeAction::CheckExit,
            probes_left: (start.probes_left - probes) as u32,
        }),
        probes == start.probes_left ==> unanswered(start, probes) == (ReadyProbe {
            action: ProbeAction::TimedOut,
            probes_left: 0,
        }),
    decreases probes,
{
    if probes > 0 {
        unanswered_count(start, (probes - 1) as nat);
    }
}

/// The waiting begins with thirty probes before it, and pauses for a fifth of a second after each
/// that is not answered.
pub proof fn thirty_probes_are_made(probe: ReadyProbe)
    requires
        call_ensures(ReadyProbe::new, (), probe),
    ensures
        probe.action == ProbeAction::CheckExit,
        probe.probes_left == 30,
        PROBE_PAUSE_MS == 200,
        probe.probes_left * PROBE_PAUSE_MS == 6000,
{
}

/// A probe looks whether the process has ended, then tries to connect, then pauses. An end and an
/// answer are noticed at once, with however many probes left.
pub proof fn ends_and_answers_are_noticed(probe: ReadyProbe)
    ensures
        probe.action == ProbeAction::CheckExit ==> {
            &&& next_probe(probe, ProbeEvent::Exited).action == ProbeAction::ServerExited
            &&& next_probe(probe, ProbeEvent::Continue).action == ProbeAction::Connect
        },
        probe.action == ProbeAction::Connect ==> {
            &&& next_probe(probe, ProbeEvent::Connected).action == ProbeAction::Ready
            &&& next_probe(probe, ProbeEvent::Continue).action == ProbeAction::Pause
        },
        probe.action == ProbeAction::Pause && probe.probes_left > 1 ==> {
            let next = next_probe(probe, ProbeEvent::Continue);
            &&& next.action == ProbeAction::CheckExit
            &&& next.probes_left == probe.probes_left - 1
        },
        probe.action == ProbeAction::Pause && probe.probes_left <= 1 ==> next_probe(
            probe,
            ProbeEvent::Continue,
        ).action == ProbeAction::TimedOut,
        probe.action != ProbeAction::Pause ==> next_probe(
            probe,
            ProbeEvent::Continue,
        ).probes_left == probe.probes_left,
{
}

/// Requests go to the dev server if one was started and has not ended, and never otherwise.
pub proof fn only_running_servers_are_proxied(started: bool, exited: bool, proxying: bool)
    requires
        call_ensures(proxy_mode, (started, exited), proxying),
    ensures
        started && !exited ==> proxying,
        !started ==> !proxying,
        exited ==> !proxying,
{
}

} // verus!
