//! Control events from the service manager, and the one-shot shutdown signal
//! that a stop request raises.

use vstd::prelude::*;

verus! {

/// A control event that the service manager delivers to a running service.
#[derive(Clone, Copy, Debug, PartialEq, Eq, Structural)]
pub enum ControlEvent {
    /// The service is asked to stop.
    Stop,
    /// The service is asked to report its status.
    Interrogate,
    /// Any other control.
    Other,
}

/// What the control handler answers the service manager.
#[derive(Clone, Copy, Debug, PartialEq, Eq, Structural)]
pub enum HandlerResult {
    /// The event is acknowledged.
    NoError,
    /// The service does not handle this event.
    NotImplemented,
}

/// The handler's answer to one control event, and whether a value is to be
/// written to the shutdown signal on its account.
#[derive(Clone, Copy, Debug, PartialEq, Eq, Structural)]
pub struct ControlReply {
    pub result: HandlerResult,
    pub signal_shutdown: bool,
}

/// The sending side of the shutdown signal: a latch that is raised at most
/// once.
#[derive(Debug)]
pub struct ShutdownSignal {
    raised: bool,
}

impl ShutdownSignal {
    /// Whether the signal has been raised.
    pub closed spec fn is_raised(&self) -> bool {
        self.raised
    }

    /// A signal that has not been raised.
    pub fn new() -> (signal: Self)
        ensures
            !signal.is_raised(),
    {
        ShutdownSignal { raised: false }
    }

    /// Whether the signal has been raised.
    pub fn raised(&self) -> (raised: bool)
        ensures
            raised == self.is_raised(),
    {
        self.raised
    }

    /// Raises the signal. The result says whether this call was the one that
    /// raised it, that is, whether a value is to be written now.
    pub fn raise(&mut self) -> (first: bool)
        ensures
            final(self).is_raised(),
            first == !old(self).is_raised(),
    {
        let first = !self.raised;
        self.raised = true;
        first
    }
}

/// The handler's answer to `event`, given whether the shutdown signal was
/// raised before, together with whether it is raised afterwards.
///
/// A stop request is always acknowledged and raises the signal; only the
/// first one writes to it. An interrogation is acknowledged and does nothing.
/// No other event is handled.
pub open spec fn react(raised: bool, event: ControlEvent) -> (bool, ControlReply) {
    match event {
        ControlEvent::Stop => (
            true,
            ControlReply { result: HandlerResult::NoError, signal_shutdown: !raised },
        ),
        ControlEvent::Interrogate => (
            raised,
            ControlReply { result: HandlerResult::NoError, signal_shutdown: false },
        ),
        ControlEvent::Other => (
            raised,
            ControlReply { result: HandlerResult::NotImplemented, signal_shutdown: false },
        ),
    }
}

/// The number of values written to the shutdown signal while `events` are
/// handled in order, given whether the signal was raised before.
pub open spec fn signals_written(raised: bool, events: Seq<ControlEvent>) -> nat
    decreases events.len(),
{
    if events.len() == 0 {
        0
    } else {
        let (next, reply) = react(raised, events.first());
        let written: nat = if reply.signal_shutdown { 1 } else { 0 };
        written + signals_written(next, events.drop_first())
    }
}

/// The control handler of a running service. It owns the sending side of the
/// shutdown signal.
#[derive(Debug)]
pub struct ControlHandler {
    signal: ShutdownSignal,
}

impl View for ControlHandler {
    type V = bool;

    /// Whether the handler has raised the shutdown signal.
    closed spec fn view(&self) -> bool {
        self.signal.is_raised()
    }
}

impl ControlHandler {
    /// A handler that has seen no event.
    pub fn new() -> (handler: Self)
        ensures
            !handler@,
    {
        ControlHandler { signal: ShutdownSignal::new() }
    }

    /// Whether a stop request has been seen.
    pub fn shutdown_requested(&self) -> (requested: bool)
        ensures
            requested == self@,
    {
        self.signal.raised()
    }

    /// Handles one control event. The handler never blocks and never fails.
    pub fn handle(&mut self, event: ControlEvent) -> (reply: ControlReply)
        ensures
            (final(self)@, reply) == react(old(self)@, event),
    {
        match event {
            ControlEvent::Stop => {
                let first = self.signal.raise();
                ControlReply { result: HandlerResult::NoError, signal_shutdown: first }
            },
            ControlEvent::Interrogate => ControlReply {
                result: HandlerResult::NoError,
                signal_shutdown: false,
            },
            ControlEvent::Other => ControlReply {
                result: HandlerResult::NotImplemented,
                signal_shutdown: false,
            },
        }
    }
}

/// Once the signal is raised, no event writes to it again.
proof fn lemma_raised_stays_silent(events: Seq<ControlEvent>)
    ensures
        signals_written(true, events) == 0,
    decreases events.len(),
{
    if events.len() > 0 {
        lemma_raised_stays_silent(events.drop_first());
    }
}

/// Whatever events arrive, a fresh handler writes to the shutdown signal
/// exactly once if a stop request is among them, and never otherwise.
pub proof fn lemma_stop_signals_once(events: Seq<ControlEvent>)
    ensures
        signals_written(false, events) == if events.contains(ControlEvent::Stop) {
            1nat
        } else {
            0nat
        },
    decreases events.len(),
{
    if events.len() > 0 {
        let rest = events.drop_first();
        if events.first() == ControlEvent::Stop {
            lemma_raised_stays_silent(rest);
            assert(events[0] == ControlEvent::Stop);
        } else {
            lemma_stop_signals_once(rest);
            if rest.contains(ControlEvent::Stop) {
                let i = choose|i: int| 0 <= i < rest.len() && rest[i] == ControlEvent::Stop;
                assert(events[i + 1] == ControlEvent::Stop);
            } else if events.contains(ControlEvent::Stop) {
                let i = choose|i: int| 0 <= i < events.len() && events[i] == ControlEvent::Stop;
                assert(rest[i - 1] == ControlEvent::Stop);
            }
        }
    }
}

} // verus!
