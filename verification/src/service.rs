//! The life of the process as a managed service: from the moment the service
//! manager enters it until its last status is pushed.
//!
//! The controller decides, the caller acts: each step takes what has just
//! happened and answers with what is to be done next.

use vstd::prelude::*;
use crate::control::{react, ControlEvent, HandlerResult};
use crate::status::{running_status, stopped_status, ServiceState, ServiceStatus};

verus! {

/// The name under which the service is registered.
pub const SERVICE_NAME: &'static str = "Geph";

/// Why the service could not be brought up, or down, in order.
#[derive(Clone, Copy, Debug, PartialEq, Eq, Structural)]
pub enum ServiceError {
    /// The control handler could not be registered.
    HandlerRegistration,
    /// The service manager did not take a status.
    StatusPush,
}

/// Where the controller stands.
#[derive(Clone, Copy, Debug, PartialEq, Eq, Structural)]
pub enum Phase {
    /// The service manager has not entered the service yet.
    Idle,
    /// The control handler is being registered.
    Registering,
    /// The handler is registered; the first status is being pushed.
    Announcing,
    /// The workload runs.
    Running,
    /// The workload has returned; the last status is being pushed.
    Stopping,
    /// The last status was taken. Nothing follows.
    Stopped,
    /// A registration or a push failed. Nothing follows.
    Failed(ServiceError),
}

/// What has just happened.
#[derive(Clone, Copy, Debug, PartialEq, Eq, Structural)]
pub enum Event {
    /// The service manager has called the service's entry point.
    Entered,
    /// The registration of the control handler has ended.
    HandlerRegistered { ok: bool },
    /// The push of the status last handed out has ended.
    StatusPushed { ok: bool },
    /// The workload has returned, with success or with an error.
    WorkloadReturned { ok: bool },
}

/// What is to be done next.
#[derive(Clone, Copy, Debug, PartialEq, Eq, Structural)]
pub enum Action {
    /// Register the control handler under `SERVICE_NAME`.
    RegisterHandler,
    /// Push this status to the service manager.
    PushStatus(ServiceStatus),
    /// Call the workload and wait for it to return.
    RunWorkload,
    /// Return: the service has stopped in order.
    Finish,
    /// Return this error to the caller.
    Abort(ServiceError),
    /// The event was not awaited: nothing changes and nothing is to be done.
    Ignore,
}

/// The state that the service has reached in the eyes of the service
/// manager, where it has one.
pub open spec fn reported_state(phase: Phase) -> Option<ServiceState> {
    match phase {
        Phase::Idle => None,
        Phase::Registering => Some(ServiceState::StartPending),
        Phase::Announcing => Some(ServiceState::StartPending),
        Phase::Running => Some(ServiceState::Running),
        Phase::Stopping => Some(ServiceState::StopPending),
        Phase::Stopped => Some(ServiceState::Stopped),
        Phase::Failed(_) => None,
    }
}

/// The controller's rule: the phase that follows `phase` on `event`, and the
/// action that goes with the change.
///
/// The workload's result does not matter: once it has returned, the stopped
/// status is pushed. An event that the phase does not await is ignored, so
/// nothing follows `Stopped` or `Failed`.
pub open spec fn transition(phase: Phase, event: Event) -> (Phase, Action) {
    match (phase, event) {
        (Phase::Idle, Event::Entered) => (Phase::Registering, Action::RegisterHandler),
        (Phase::Registering, Event::HandlerRegistered { ok: true }) => (
            Phase::Announcing,
            Action::PushStatus(running_status()),
        ),
        (Phase::Registering, Event::HandlerRegistered { ok: false }) => (
            Phase::Failed(ServiceError::HandlerRegistration),
            Action::Abort(ServiceError::HandlerRegistration),
        ),
        (Phase::Announcing, Event::StatusPushed { ok: true }) => (
            Phase::Running,
            Action::RunWorkload,
        ),
        (Phase::Announcing, Event::StatusPushed { ok: false }) => (
            Phase::Failed(ServiceError::StatusPush),
            Action::Abort(ServiceError::StatusPush),
        ),
        (Phase::Running, Event::WorkloadReturned { ok: _ }) => (
            Phase::Stopping,
            Action::PushStatus(stopped_status()),
        ),
        (Phase::Stopping, Event::StatusPushed { ok: true }) => (Phase::Stopped, Action::Finish),
        (Phase::Stopping, Event::StatusPushed { ok: false }) => (
            Phase::Failed(ServiceError::StatusPush),
            Action::Abort(ServiceError::StatusPush),
        ),
        _ => (phase, Action::Ignore),
    }
}

/// The controller of one service run.
#[derive(Debug)]
pub struct Controller {
    phase: Phase,
}

impl View for Controller {
    type V = Phase;

    closed spec fn view(&self) -> Phase {
        self.phase
    }
}

impl Controller {
    /// A controller that waits for the service manager to enter the service.
    pub fn new() -> (controller: Self)
        ensures
            controller@ == Phase::Idle,
    {
        Controller { phase: Phase::Idle }
    }

    /// Where the controller stands.
    pub fn phase(&self) -> (phase: Phase)
        ensures
            phase == self@,
    {
        self.phase
    }

    /// The state that the service has reached in the eyes of the service
    /// manager, where it has one.
    pub fn state(&self) -> (state: Option<ServiceState>)
        ensures
            state == reported_state(self@),
    {
        match self.phase {
            Phase::Idle => None,
            Phase::Registering => Some(ServiceState::StartPending),
            Phase::Announcing => Some(ServiceState::StartPending),
            Phase::Running => Some(ServiceState::Running),
            Phase::Stopping => Some(ServiceState::StopPending),
            Phase::Stopped => Some(ServiceState::Stopped),
            Phase::Failed(_) => None,
        }
    }

    /// Takes one event and answers with the next action.
    pub fn step(&mut self, event: Event) -> (action: Action)
        ensures
            (final(self)@, action) == transition(old(self)@, event),
    {
        let (next, action) = match self.phase {
            Phase::Idle => match event {
                Event::Entered => (Phase::Registering, Action::RegisterHandler),
                _ => (self.phase, Action::Ignore),
            },
            Phase::Registering => match event {
                Event::HandlerRegistered { ok } => if ok {
                    (Phase::Announcing, Action::PushStatus(ServiceStatus::running()))
                } else {
                    (
                        Phase::Failed(ServiceError::HandlerRegistration),
                        Action::Abort(ServiceError::HandlerRegistration),
                    )
                },
                _ => (self.phase, Action::Ignore),
            },
            Phase::Announcing => match event {
                Event::StatusPushed { ok } => if ok {
                    (Phase::Running, Action::RunWorkload)
                } else {
                    (Phase::Failed(ServiceError::StatusPush), Action::Abort(ServiceError::StatusPush))
                },
                _ => (self.phase, Action::Ignore),
            },
            Phase::Running => match event {
                Event::WorkloadReturned { ok: _ } => (
                    Phase::Stopping,
                    Action::PushStatus(ServiceStatus::stopped()),
                ),
                _ => (self.phase, Action::Ignore),
            },
            Phase::Stopping => match event {
                Event::StatusPushed { ok } => if ok {
                    (Phase::Stopped, Action::Finish)
                } else {
                    (Phase::Failed(ServiceError::StatusPush), Action::Abort(ServiceError::StatusPush))
                },
                _ => (self.phase, Action::Ignore),
            },
            Phase::Stopped => (self.phase, Action::Ignore),
            Phase::Failed(_) => (self.phase, Action::Ignore),
        };
        self.phase = next;
        action
    }
}

/// Concludes the hand-over of the process to the service dispatcher, which
/// returns once the service has stopped, or at once with an error where it
/// could not take the process.
///
/// The process ends in order either way: the first part of the result is
/// what the caller returns, the second is the dispatcher's error, which is
/// left to be reported.
pub fn start<E>(dispatched: Result<(), E>) -> (conclusion: (Result<(), E>, Option<E>))
    ensures
        conclusion.0 == Ok::<(), E>(()),
        conclusion.1 == match dispatched {
            Ok(_) => None,
            Err(error) => Some(error),
        },
{
    match dispatched {
        Ok(_) => (Ok(()), None),
        Err(error) => (Ok(()), Some(error)),
    }
}

/// The phase that a controller reaches from `Idle` when it takes `events` in
/// order.
pub open spec fn phase_after(events: Seq<Event>) -> Phase
    decreases events.len(),
{
    if events.len() == 0 {
        Phase::Idle
    } else {
        transition(phase_after(events.drop_last()), events.last()).0
    }
}

/// The statuses that a controller hands out for pushing when it takes
/// `events` in order from `Idle`.
pub open spec fn statuses_pushed(events: Seq<Event>) -> Seq<ServiceStatus>
    decreases events.len(),
{
    if events.len() == 0 {
        Seq::empty()
    } else {
        let before = events.drop_last();
        match transition(phase_after(before), events.last()).1 {
            Action::PushStatus(status) => statuses_pushed(before).push(status),
            _ => statuses_pushed(before),
        }
    }
}

/// In `events`, the handler's registration succeeds at `i` and a status push
/// succeeds later, at `j`.
pub open spec fn started_in_order(events: Seq<Event>, i: int, j: int) -> bool {
    &&& 0 <= i < j < events.len()
    &&& events[i] == Event::HandlerRegistered { ok: true }
    &&& events[j] == Event::StatusPushed { ok: true }
}

/// In `events`, the workload returns at `k`: the controller was running, and
/// the event at `k` is the workload's return.
pub open spec fn workload_returns_at(events: Seq<Event>, k: int) -> bool {
    &&& 0 <= k < events.len()
    &&& phase_after(events.take(k)) == Phase::Running
    &&& events[k] is WorkloadReturned
}

/// In `events`, the handler's registration succeeds at `i`.
spec fn registered_at(events: Seq<Event>, i: int) -> bool {
    &&& 0 <= i < events.len()
    &&& events[i] == Event::HandlerRegistered { ok: true }
}

/// What the events so far must hold for the controller to stand where it
/// stands.
proof fn lemma_startup_history(events: Seq<Event>)
    ensures
        phase_after(events) == Phase::Announcing ==> exists|i: int| registered_at(events, i),
        phase_after(events) == Phase::Running || phase_after(events) == Phase::Stopping
            || phase_after(events) == Phase::Stopped ==> exists|i: int, j: int|
            started_in_order(events, i, j),
    decreases events.len(),
{
    if events.len() > 0 {
        let before = events.drop_last();
        let last = events.len() - 1;
        lemma_startup_history(before);
        let earlier = phase_after(before);
        let now = phase_after(events);
        if now == Phase::Announcing {
            if earlier == Phase::Announcing {
                let i = choose|i: int| registered_at(before, i);
                assert(registered_at(events, i));
            } else {
                assert(registered_at(events, last));
            }
        }
        if now == Phase::Running || now == Phase::Stopping || now == Phase::Stopped {
            if earlier == Phase::Announcing {
                let i = choose|i: int| registered_at(before, i);
                assert(started_in_order(events, i, last));
            } else {
                let (i, j) = choose|i: int, j: int| started_in_order(before, i, j);
                assert(started_in_order(events, i, j));
            }
        }
    }
}

/// The service is never reported as running before the control handler has
/// been registered and a status push has succeeded after that: whatever the
/// events, a controller that stands at `Running` has seen both, in this
/// order.
pub proof fn lemma_running_only_after_startup(events: Seq<Event>)
    requires
        reported_state(phase_after(events)) == Some(ServiceState::Running),
    ensures
        exists|i: int, j: int| started_in_order(events, i, j),
{
    lemma_startup_history(events);
}

/// Once the workload has returned, the controller is on its way out, and the
/// status it handed out last is the stopped one.
proof fn lemma_after_return(events: Seq<Event>)
    requires
        exists|k: int| workload_returns_at(events, k),
    ensures
        phase_after(events) == Phase::Stopping || phase_after(events) == Phase::Stopped
            || phase_after(events) is Failed,
        statuses_pushed(events).len() > 0,
        statuses_pushed(events).last() == stopped_status(),
    decreases events.len(),
{
    let before = events.drop_last();
    let last = events.len() - 1;
    let k = choose|k: int| workload_returns_at(events, k);
    if k < last {
        assert(before.take(k) =~= events.take(k));
        assert(workload_returns_at(before, k));
        lemma_after_return(before);
    } else {
        assert(events.take(k) =~= before);
    }
}

/// After the workload has returned, with success or with an error, the last
/// status that the controller hands out for pushing is the stopped one: state
/// `Stopped`, no control accepted, exit code zero.
pub proof fn lemma_last_status_is_stopped(events: Seq<Event>)
    requires
        exists|k: int| workload_returns_at(events, k),
    ensures
        statuses_pushed(events).len() > 0,
        statuses_pushed(events).last() == stopped_status(),
        stopped_status().current_state == ServiceState::Stopped,
        stopped_status().accepted_controls@ == Set::<ControlEvent>::empty(),
        stopped_status().exit_code == 0,
{
    lemma_after_return(events);
    assert(stopped_status().accepted_controls@ =~= Set::<ControlEvent>::empty());
}

/// The control handler acknowledges exactly the controls that the running
/// status declares as accepted.
pub proof fn lemma_acknowledged_controls_are_accepted(raised: bool, event: ControlEvent)
    ensures
        react(raised, event).1.result == HandlerResult::NoError
            <==> running_status().accepted_controls@.contains(event),
{
}

} // verus!
