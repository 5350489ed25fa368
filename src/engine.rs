use vstd::prelude::*;
use crate::adapter::{adapter_choice, select_adapter};
use crate::address::{is_paired, knows};
use crate::error::Outcome;
use crate::settings::{deadline_of, interval_of, Deadline, Settings};

verus! {

/// Where one authentication attempt stands.
#[derive(Clone, Copy, Debug, PartialEq, Eq, Structural)]
pub enum Phase {
    /// Waiting for the names of the adapters that the stack offers.
    ListAdapters,
    /// Waiting for the chosen adapter's power state.
    CheckPower,
    /// Waiting for the adapter to be powered on.
    PowerOn,
    /// Waiting for the set of known devices; the deadline runs from here.
    ListKnown,
    /// Waiting for whether the target is connected.
    QueryConnected,
    /// Waiting for the outcome of a connection attempt.
    Connect,
    /// Waiting for the pause between two probes to end.
    Sleeping,
    /// The attempt is decided.
    Done(Outcome),
}

/// What the wireless stack or the timer reported to the attempt.
#[derive(Debug)]
pub enum Event {
    AdapterNames { names: Vec<String> },
    Powered { on: bool },
    PowerOnResult { ok: bool },
    Known { addresses: Vec<[u8; 6]> },
    Connected { connected: bool },
    ConnectResult { ok: bool },
    Slept,
    /// A call into the stack failed.
    StackFailed,
    /// An operation was abandoned because the time budget ran out.
    Elapsed,
}

/// What the caller has to do next for the attempt.
#[derive(Clone, Copy, Debug, PartialEq, Eq, Structural)]
pub enum Action {
    /// Open a session and enumerate the adapter names.
    ListAdapters,
    /// Open the adapter at this position among the names, and query its power.
    OpenAdapter { index: usize },
    /// Power the adapter on.
    PowerOn,
    /// Enumerate the addresses of the known devices.
    ListKnown,
    /// Ask whether the target device is connected.
    QueryConnected,
    /// Try to connect to the target device.
    Connect,
    /// Pause for this many milliseconds.
    Sleep { ms: u64 },
    /// Stop: the attempt is decided.
    Finish { outcome: Outcome },
}

/// One authentication attempt: the decisions of adapter selection, the
/// paired check, probing, polling and the deadline, driven by events.
///
/// Times are milliseconds since the attempt began, as read by the caller.
/// `probes` counts the completed connection-state queries and `waited_ms`
/// the pauses requested between probes; both stop at `u64::MAX`.
#[derive(Debug)]
pub struct Attempt {
    pub adapter: Option<String>,
    pub target: [u8; 6],
    pub interval_ms: u64,
    pub deadline: Deadline,
    pub phase: Phase,
    pub adapter_index: usize,
    pub scan_start_ms: u64,
    pub probes: u64,
    pub waited_ms: u64,
}

/// The phases that run under the deadline.
pub open spec fn in_scan(p: Phase) -> bool {
    p is ListKnown || p is QueryConnected || p is Connect || p is Sleeping
}

/// The time at which a limited scan is abandoned.
pub open spec fn deadline_at(s: Attempt, secs: u64) -> int {
    s.scan_start_ms + secs * 1000
}

/// The scan runs under a deadline that has passed at `now`.
pub open spec fn expired(s: Attempt, now: u64) -> bool {
    in_scan(s.phase) && match s.deadline {
        Deadline::Unlimited => false,
        Deadline::Limited { secs } => now >= deadline_at(s, secs),
    }
}

/// How long the caller may still wait on an operation at `now`: nothing
/// outside a limited scan, else what is left of the budget (`u64::MAX` at most).
pub open spec fn budget_left(s: Attempt, now: u64) -> Option<u64> {
    if !in_scan(s.phase) {
        None
    } else {
        match s.deadline {
            Deadline::Unlimited => None,
            Deadline::Limited { secs } => if now >= deadline_at(s, secs) {
                Some(0)
            } else {
                Some(sat(deadline_at(s, secs) - now))
            },
        }
    }
}

pub open spec fn sat(x: int) -> u64 {
    if x <= u64::MAX {
        x as u64
    } else {
        u64::MAX
    }
}

pub open spec fn with_phase(s: Attempt, p: Phase) -> Attempt {
    Attempt { phase: p, ..s }
}

/// The attempt begins the scan proper at `now`.
pub open spec fn enter_scan(s: Attempt, now: u64) -> Attempt {
    Attempt { phase: Phase::ListKnown, scan_start_ms: now, ..s }
}

/// The attempt after `ev` was reported at `now`.
pub open spec fn step_spec(s: Attempt, ev: Event, now: u64) -> Attempt {
    let failed = with_phase(s, Phase::Done(Outcome::AdapterError));
    if s.phase is Done {
        s
    } else if expired(s, now) {
        with_phase(s, Phase::Done(Outcome::Timeout))
    } else {
        match s.phase {
            Phase::ListAdapters => match ev {
                Event::AdapterNames { names } => match adapter_choice(s.adapter, names@) {
                    Some(i) => Attempt { phase: Phase::CheckPower, adapter_index: i as usize, ..s },
                    None => failed,
                },
                _ => failed,
            },
            Phase::CheckPower => match ev {
                Event::Powered { on } => if on {
                    enter_scan(s, now)
                } else {
                    with_phase(s, Phase::PowerOn)
                },
                _ => failed,
            },
            Phase::PowerOn => match ev {
                Event::PowerOnResult { ok } => if ok {
                    enter_scan(s, now)
                } else {
                    failed
                },
                _ => failed,
            },
            Phase::ListKnown => match ev {
                Event::Known { addresses } => if knows(addresses@, s.target@) {
                    with_phase(s, Phase::QueryConnected)
                } else {
                    with_phase(s, Phase::Done(Outcome::NotPaired))
                },
                _ => failed,
            },
            Phase::QueryConnected => match ev {
                Event::Connected { connected } => Attempt {
                    phase: if connected {
                        Phase::Done(Outcome::Present)
                    } else {
                        Phase::Connect
                    },
                    probes: sat(s.probes + 1),
                    ..s
                },
                _ => failed,
            },
            Phase::Connect => match ev {
                Event::ConnectResult { ok } => if ok {
                    with_phase(s, Phase::Done(Outcome::Present))
                } else {
                    Attempt {
                        phase: Phase::Sleeping,
                        waited_ms: sat(s.waited_ms + s.interval_ms),
                        ..s
                    }
                },
                _ => failed,
            },
            Phase::Sleeping => match ev {
                Event::Slept => with_phase(s, Phase::QueryConnected),
                _ => failed,
            },
            Phase::Done(_) => s,
        }
    }
}

/// What the caller has to do in a given state of the attempt.
pub open spec fn action_of(s: Attempt) -> Action {
    match s.phase {
        Phase::ListAdapters => Action::ListAdapters,
        Phase::CheckPower => Action::OpenAdapter { index: s.adapter_index },
        Phase::PowerOn => Action::PowerOn,
        Phase::ListKnown => Action::ListKnown,
        Phase::QueryConnected => Action::QueryConnected,
        Phase::Connect => Action::Connect,
        Phase::Sleeping => Action::Sleep { ms: s.interval_ms },
        Phase::Done(o) => Action::Finish { outcome: o },
    }
}

/// `s` is a fresh attempt for the given settings and the parse of their
/// target address (`None` where it did not parse).
pub open spec fn starts(s: Attempt, settings: Settings, target: Option<[u8; 6]>) -> bool {
    &&& s.adapter == settings.adapter
    &&& (target is Some ==> s.target == target->0)
    &&& s.interval_ms == interval_of(settings)
    &&& s.deadline == deadline_of(settings)
    &&& s.phase == if target is Some {
        Phase::ListAdapters
    } else {
        Phase::Done(Outcome::ConfigError)
    }
    &&& s.scan_start_ms == 0
    &&& s.probes == 0
    &&& s.waited_ms == 0
}

fn sat_add(a: u64, b: u64) -> (r: u64)
    ensures
        r == sat(a + b),
{
    if a <= u64::MAX - b {
        a + b
    } else {
        u64::MAX
    }
}

impl Attempt {
    /// Starts an attempt; a target address that did not parse decides it
    /// at once as a configuration error.
    pub fn new(settings: &Settings, target: Option<[u8; 6]>) -> (r: Attempt)
        ensures
            starts(r, *settings, target),
    {
        let phase = if target.is_some() {
            Phase::ListAdapters
        } else {
            Phase::Done(Outcome::ConfigError)
        };
        Attempt {
            adapter: settings.adapter.clone(),
            target: match target {
                Some(a) => a,
                None => [0u8; 6],
            },
            interval_ms: settings.poll_interval_ms(),
            deadline: settings.deadline(),
            phase,
            adapter_index: 0,
            scan_start_ms: 0,
            probes: 0,
            waited_ms: 0,
        }
    }

    /// What the caller has to do now.
    pub fn action(&self) -> (r: Action)
        ensures
            r == action_of(*self),
    {
        match self.phase {
            Phase::ListAdapters => Action::ListAdapters,
            Phase::CheckPower => Action::OpenAdapter { index: self.adapter_index },
            Phase::PowerOn => Action::PowerOn,
            Phase::ListKnown => Action::ListKnown,
            Phase::QueryConnected => Action::QueryConnected,
            Phase::Connect => Action::Connect,
            Phase::Sleeping => Action::Sleep { ms: self.interval_ms },
            Phase::Done(o) => Action::Finish { outcome: o },
        }
    }

    /// The outcome, once the attempt is decided.
    pub fn outcome(&self) -> (r: Option<Outcome>)
        ensures
            match self.phase {
                Phase::Done(o) => r == Some(o),
                _ => r is None,
            },
    {
        match self.phase {
            Phase::Done(o) => Some(o),
            _ => None,
        }
    }

    /// Whether the scan runs under a deadline that has passed at `now`.
    pub fn is_expired(&self, now: u64) -> (r: bool)
        ensures
            r == expired(*self, now),
    {
        match self.phase {
            Phase::ListKnown | Phase::QueryConnected | Phase::Connect | Phase::Sleeping => {
                match self.deadline {
                    Deadline::Unlimited => false,
                    Deadline::Limited { secs } => {
                        (now as u128) >= (self.scan_start_ms as u128) + (secs as u128) * 1000
                    },
                }
            },
            _ => false,
        }
    }

    /// How long the caller may wait on the pending operation at `now`;
    /// `None` where no deadline bounds it.
    pub fn remaining_ms(&self, now: u64) -> (r: Option<u64>)
        ensures
            r == budget_left(*self, now),
    {
        match self.phase {
            Phase::ListKnown | Phase::QueryConnected | Phase::Connect | Phase::Sleeping => {
                match self.deadline {
                    Deadline::Unlimited => None,
                    Deadline::Limited { secs } => {
                        let at: u128 = (self.scan_start_ms as u128) + (secs as u128) * 1000;
                        if (now as u128) >= at {
                            Some(0)
                        } else if at - (now as u128) <= (u64::MAX as u128) {
                            Some((at - (now as u128)) as u64)
                        } else {
                            Some(u64::MAX)
                        }
                    },
                }
            },
            _ => None,
        }
    }

    /// Takes in what the stack or the timer reported at `now`, and returns
    /// what the caller has to do next.
    pub fn step(&mut self, ev: Event, now: u64) -> (r: Action)
        ensures
            *final(self) == step_spec(*old(self), ev, now),
            r == action_of(*final(self)),
    {
        if let Phase::Done(_) = self.phase {
            return self.action();
        }
        if self.is_expired(now) {
            self.phase = Phase::Done(Outcome::Timeout);
            return self.action();
        }
        let failed = Phase::Done(Outcome::AdapterError);
        match self.phase {
            Phase::ListAdapters => match ev {
                Event::AdapterNames { names } => match select_adapter(&self.adapter, &names) {
                    Some(i) => {
                        self.phase = Phase::CheckPower;
                        self.adapter_index = i;
                    },
                    None => self.phase = failed,
                },
                _ => self.phase = failed,
            },
            Phase::CheckPower => match ev {
                Event::Powered { on } => {
                    if on {
                        self.phase = Phase::ListKnown;
                        self.scan_start_ms = now;
                    } else {
                        self.phase = Phase::PowerOn;
                    }
                },
                _ => self.phase = failed,
            },
            Phase::PowerOn => match ev {
                Event::PowerOnResult { ok } => {
                    if ok {
                        self.phase = Phase::ListKnown;
                        self.scan_start_ms = now;
                    } else {
                        self.phase = failed;
                    }
                },
                _ => self.phase = failed,
            },
            Phase::ListKnown => match ev {
                Event::Known { addresses } => {
                    if is_paired(&addresses, &self.target) {
                        self.phase = Phase::QueryConnected;
                    } else {
                        self.phase = Phase::Done(Outcome::NotPaired);
                    }
                },
                _ => self.phase = failed,
            },
            Phase::QueryConnected => match ev {
                Event::Connected { connected } => {
                    self.probes = sat_add(self.probes, 1);
                    if connected {
                        self.phase = Phase::Done(Outcome::Present);
                    } else {
                        self.phase = Phase::Connect;
                    }
                },
                _ => self.phase = failed,
            },
            Phase::Connect => match ev {
                Event::ConnectResult { ok } => {
                    if ok {
                        self.phase = Phase::Done(Outcome::Present);
                    } else {
                        self.phase = Phase::Sleeping;
                        self.waited_ms = sat_add(self.waited_ms, self.interval_ms);
                    }
                },
                _ => self.phase = failed,
            },
            Phase::Sleeping => match ev {
                Event::Slept => self.phase = Phase::QueryConnected,
                _ => self.phase = failed,
            },
            Phase::Done(_) => {},
        }
        self.action()
    }
}

} // verus!
