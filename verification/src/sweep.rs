//! The sweep over the port list for one host, as a state machine.
//!
//! The sweep decides; a driver acts. The driver performs each `Action` that
//! the sweep hands out (a name resolution, a connection attempt) and hands
//! the outcome back as an `Event`. The sweep answers with the result of the
//! probe that the event settled, the line to print for it, and the next
//! action. Outcomes never change which ports are tried.

use crate::hostname::{is_wildcard, Subdomain, Validity, INVALID_REASON};
use crate::ports::{popular_ports_spec, port_at, CONNECT_TIMEOUT_SECS, PORT_COUNT};
use crate::probe::{
    classify_connection, classify_connection_spec, select_address, select_address_spec,
    ProbeResult, ProbeResultView, ProbeTarget, ProbeTargetView, SocketAddress,
};
use crate::report::{report, report_spec, Line, LineView};
use vstd::prelude::*;

verus! {

/// What a sweep is waiting for.
#[derive(Clone, Copy, Debug, PartialEq, Eq, Structural)]
pub enum Phase {
    /// The addresses of the current target.
    Resolving,
    /// The outcome of the connection attempt on the current target.
    Connecting,
    /// Nothing: the host was skipped or every port has been probed.
    Finished,
}

/// Why a sweep refused an event.
#[derive(Clone, Copy, Debug, PartialEq, Eq, Structural)]
pub enum SweepError {
    /// The event does not answer the action that the sweep last handed out.
    UnexpectedEvent,
}

/// What the driver is to do next.
#[derive(Clone, Debug, PartialEq, Eq)]
pub enum Action {
    /// Resolve the target's host and port to socket addresses.
    Resolve(ProbeTarget),
    /// Try to connect to the address, giving up after the timeout.
    Connect { addr: SocketAddress, timeout_secs: u64 },
    /// Stop: the sweep is over.
    Finish,
}

/// What contracts say of an `Action`.
pub enum ActionView {
    Resolve(ProbeTargetView),
    Connect { addr: SocketAddress, timeout_secs: u64 },
    Finish,
}

impl View for Action {
    type V = ActionView;

    open spec fn view(&self) -> ActionView {
        match self {
            Action::Resolve(target) => ActionView::Resolve(target@),
            Action::Connect { addr, timeout_secs } => ActionView::Connect {
                addr: *addr,
                timeout_secs: *timeout_secs,
            },
            Action::Finish => ActionView::Finish,
        }
    }
}

/// What the driver reports back.
#[derive(Debug, PartialEq, Eq)]
pub enum Event {
    /// The resolver's answer: the addresses found, or the error's text.
    Resolved(Result<Vec<SocketAddress>, String>),
    /// The outcome of the connection attempt: made, or the error's text.
    Connected(Result<(), String>),
}

/// What contracts say of an `Event`.
pub enum EventView {
    Resolved(Result<Seq<SocketAddress>, Seq<char>>),
    Connected(Result<(), Seq<char>>),
}

impl View for Event {
    type V = EventView;

    open spec fn view(&self) -> EventView {
        match self {
            Event::Resolved(Ok(addrs)) => EventView::Resolved(Ok(addrs@)),
            Event::Resolved(Err(cause)) => EventView::Resolved(Err(cause@)),
            Event::Connected(Ok(_)) => EventView::Connected(Ok(())),
            Event::Connected(Err(cause)) => EventView::Connected(Err(cause@)),
        }
    }
}

/// The sweep's answer to one event.
#[derive(Clone, Debug, PartialEq, Eq)]
pub struct Step {
    /// The result of the probe that the event settled, if it settled one.
    pub result: Option<ProbeResult>,
    /// The line to print for that result, if it calls for one.
    pub line: Option<Line>,
    /// What to do next.
    pub action: Action,
}

/// What contracts say of a `Step`.
pub struct StepView {
    pub result: Option<ProbeResultView>,
    pub line: Option<LineView>,
    pub action: ActionView,
}

impl View for Step {
    type V = StepView;

    open spec fn view(&self) -> StepView {
        StepView {
            result: match self.result {
                Some(result) => Some(result@),
                None => None,
            },
            line: match self.line {
                Some(line) => Some(line@),
                None => None,
            },
            action: self.action@,
        }
    }
}

/// The state of a sweep: its host, the position in the port list of the
/// target it is working on, and what it is waiting for.
pub struct SweepView {
    pub host: Seq<char>,
    pub index: nat,
    pub phase: Phase,
}

/// The target that `state` is working on.
pub open spec fn current_target(state: SweepView) -> ProbeTargetView {
    ProbeTargetView { host: state.host, port: popular_ports_spec()[state.index as int] }
}

/// Where a sweep begins: a host with a wildcard is skipped with a
/// diagnostic and the sweep is over at once; any other host begins with the
/// resolution of its first port.
pub open spec fn start_spec(host: Seq<char>) -> (SweepView, StepView) {
    let state = SweepView { host, index: 0, phase: Phase::Resolving };
    if is_wildcard(host) {
        let result = ProbeResultView::Skipped(INVALID_REASON@);
        (
            SweepView { host, index: 0, phase: Phase::Finished },
            StepView {
                result: Some(result),
                line: report_spec(current_target(state), result),
                action: ActionView::Finish,
            },
        )
    } else {
        (state, StepView { result: None, line: None, action: ActionView::Resolve(current_target(state)) })
    }
}

/// Whether `event` answers the action that a sweep in `state` last handed out.
pub open spec fn accepts(state: SweepView, event: EventView) -> bool {
    match event {
        EventView::Resolved(_) => state.phase == Phase::Resolving,
        EventView::Connected(_) => state.phase == Phase::Connecting,
    }
}

/// Moves on from a settled probe: to the resolution of the next port, or to
/// the end after the last one.
pub open spec fn advance_spec(state: SweepView) -> (SweepView, ActionView) {
    if state.index + 1 < PORT_COUNT {
        let next = SweepView { host: state.host, index: state.index + 1, phase: Phase::Resolving };
        (next, ActionView::Resolve(current_target(next)))
    } else {
        (
            SweepView { host: state.host, index: PORT_COUNT as nat, phase: Phase::Finished },
            ActionView::Finish,
        )
    }
}

/// Settles the probe of the current target with `result` and moves on.
pub open spec fn settle_spec(state: SweepView, result: ProbeResultView) -> (SweepView, StepView) {
    let (next, action) = advance_spec(state);
    (next, StepView { result: Some(result), line: report_spec(current_target(state), result), action })
}

/// The answer of a sweep in `state` to an event that it accepts.
///
/// A resolution that yields an address leads to the connection attempt on
/// the first address; one that fails settles the probe as a failed
/// resolution. A connection attempt settles the probe as open or closed.
/// Whatever the result, the sweep then moves on to the next port.
pub open spec fn step_spec(state: SweepView, event: EventView) -> (SweepView, StepView) {
    match event {
        EventView::Resolved(resolved) => match select_address_spec(current_target(state), resolved) {
            Ok(addr) => (
                SweepView { host: state.host, index: state.index, phase: Phase::Connecting },
                StepView {
                    result: None,
                    line: None,
                    action: ActionView::Connect { addr, timeout_secs: CONNECT_TIMEOUT_SECS },
                },
            ),
            Err(failure) => settle_spec(state, ProbeResultView::ResolutionFailed(failure)),
        },
        EventView::Connected(connected) => settle_spec(state, classify_connection_spec(connected)),
    }
}

/// The sweep over the port list for one host.
pub struct Sweep {
    host: Subdomain,
    index: usize,
    phase: Phase,
}

impl View for Sweep {
    type V = SweepView;

    closed spec fn view(&self) -> SweepView {
        SweepView { host: self.host@, index: self.index as nat, phase: self.phase }
    }
}

impl Sweep {
    #[verifier::type_invariant]
    spec fn in_range(&self) -> bool {
        &&& self.index <= PORT_COUNT
        &&& self.phase != Phase::Finished ==> self.index < PORT_COUNT
    }

    /// Begins the sweep for `host` and gives its first answer.
    pub fn start(host: Subdomain) -> (started: (Sweep, Step))
        ensures
            (started.0@, started.1@) == start_spec(host@),
    {
        let first = ProbeTarget { host: host.duplicate(), port: port_at(0) };
        match host.validate() {
            Validity::Invalid(reason) => {
                let result = ProbeResult::Skipped(reason);
                let line = report(&first, &result);
                let sweep = Sweep { host, index: 0, phase: Phase::Finished };
                (sweep, Step { result: Some(result), line, action: Action::Finish })
            },
            Validity::Valid => {
                let sweep = Sweep { host, index: 0, phase: Phase::Resolving };
                (sweep, Step { result: None, line: None, action: Action::Resolve(first) })
            },
        }
    }

    /// The host that is swept.
    pub fn host(&self) -> (host: &Subdomain)
        ensures
            host@ == self@.host,
    {
        &self.host
    }

    /// What the sweep is waiting for.
    pub fn phase(&self) -> (phase: Phase)
        ensures
            phase == self@.phase,
    {
        self.phase
    }

    /// Whether the sweep is over.
    pub fn is_finished(&self) -> (finished: bool)
        ensures
            finished == (self@.phase == Phase::Finished),
    {
        match self.phase {
            Phase::Finished => true,
            _ => false,
        }
    }

    /// The target that the sweep is working on, unless it is over.
    pub fn target(&self) -> (target: Option<ProbeTarget>)
        ensures
            self@.phase == Phase::Finished ==> target is None,
            self@.phase != Phase::Finished ==> target is Some && target->Some_0@ == current_target(
                self@,
            ),
    {
        proof {
            use_type_invariant(self);
        }
        match self.phase {
            Phase::Finished => None,
            _ => Some(ProbeTarget { host: self.host.duplicate(), port: port_at(self.index) }),
        }
    }

    fn advance(&mut self) -> (action: Action)
        requires
            old(self)@.phase != Phase::Finished,
        ensures
            (final(self)@, action@) == advance_spec(old(self)@),
    {
        proof {
            use_type_invariant(&*self);
        }
        if self.index + 1 < PORT_COUNT {
            self.index = self.index + 1;
            self.phase = Phase::Resolving;
            Action::Resolve(ProbeTarget { host: self.host.duplicate(), port: port_at(self.index) })
        } else {
            self.phase = Phase::Finished;
            self.index = PORT_COUNT;
            Action::Finish
        }
    }

    /// Takes the outcome of the action that the sweep last handed out and
    /// answers with the settled result, its line and the next action. An
    /// event that does not answer that action is refused and changes nothing.
    pub fn step(&mut self, event: Event) -> (stepped: Result<Step, SweepError>)
        ensures
            accepts(old(self)@, event@) ==> stepped is Ok && (final(self)@, stepped->Ok_0@)
                == step_spec(old(self)@, event@),
            !accepts(old(self)@, event@) ==> stepped == Err::<Step, SweepError>(
                SweepError::UnexpectedEvent,
            ) && final(self)@ == old(self)@,
    {
        proof {
            use_type_invariant(&*self);
        }
        match event {
            Event::Resolved(resolved) => {
                match self.phase {
                    Phase::Resolving => {
                        let target = ProbeTarget {
                            host: self.host.duplicate(),
                            port: port_at(self.index),
                        };
                        match select_address(&target, resolved) {
                            Ok(addr) => {
                                self.phase = Phase::Connecting;
                                Ok(
                                    Step {
                                        result: None,
                                        line: None,
                                        action: Action::Connect {
                                            addr,
                                            timeout_secs: CONNECT_TIMEOUT_SECS,
                                        },
                                    },
                                )
                            },
                            Err(failure) => {
                                let result = ProbeResult::ResolutionFailed(failure);
                                let line = report(&target, &result);
                                let action = self.advance();
                                Ok(Step { result: Some(result), line, action })
                            },
                        }
                    },
                    _ => Err(SweepError::UnexpectedEvent),
                }
            },
            Event::Connected(connected) => {
                match self.phase {
                    Phase::Connecting => {
                        let target = ProbeTarget {
                            host: self.host.duplicate(),
                            port: port_at(self.index),
                        };
                        let result = classify_connection(connected);
                        let line = report(&target, &result);
                        let action = self.advance();
                        Ok(Step { result: Some(result), line, action })
                    },
                    _ => Err(SweepError::UnexpectedEvent),
                }
            },
        }
    }
}

} // verus!
