//! The status record that a service reports to the service manager.

use vstd::prelude::*;
use crate::control::ControlEvent;

verus! {

/// The kind of a service.
#[derive(Clone, Copy, Debug, PartialEq, Eq, Structural)]
pub enum ServiceType {
    /// A file system driver.
    FileSystemDriver,
    /// A kernel driver.
    KernelDriver,
    /// A service that runs in a process of its own.
    OwnProcess,
    /// A service that shares its process with others.
    ShareProcess,
}

/// The state that a service reports.
#[derive(Clone, Copy, Debug, PartialEq, Eq, Structural)]
pub enum ServiceState {
    StartPending,
    Running,
    StopPending,
    Stopped,
}

/// The set of controls that a service accepts in its current state.
#[derive(Clone, Copy, Debug, PartialEq, Eq, Structural)]
pub struct AcceptedControls {
    pub stop: bool,
    pub interrogate: bool,
}

impl View for AcceptedControls {
    type V = Set<ControlEvent>;

    open spec fn view(&self) -> Set<ControlEvent> {
        Set::new(
            |event: ControlEvent|
                match event {
                    ControlEvent::Stop => self.stop,
                    ControlEvent::Interrogate => self.interrogate,
                    ControlEvent::Other => false,
                },
        )
    }
}

impl AcceptedControls {
    /// No control is accepted.
    pub fn none() -> (controls: Self)
        ensures
            controls == (AcceptedControls { stop: false, interrogate: false }),
            controls@ == Set::<ControlEvent>::empty(),
    {
        let controls = AcceptedControls { stop: false, interrogate: false };
        assert(controls@ =~= Set::<ControlEvent>::empty());
        controls
    }

    /// The controls of a running service: a stop request and an
    /// interrogation.
    pub fn while_running() -> (controls: Self)
        ensures
            controls == (AcceptedControls { stop: true, interrogate: true }),
            controls@ == set![ControlEvent::Stop, ControlEvent::Interrogate],
    {
        let controls = AcceptedControls { stop: true, interrogate: true };
        assert(controls@ =~= set![ControlEvent::Stop, ControlEvent::Interrogate]);
        controls
    }

    /// Whether `event` is among the accepted controls.
    pub fn accepts(&self, event: ControlEvent) -> (accepted: bool)
        ensures
            accepted == self@.contains(event),
    {
        match event {
            ControlEvent::Stop => self.stop,
            ControlEvent::Interrogate => self.interrogate,
            ControlEvent::Other => false,
        }
    }

    /// Whether no control is accepted.
    pub fn is_empty(&self) -> (empty: bool)
        ensures
            empty == (self@ == Set::<ControlEvent>::empty()),
    {
        let empty = !self.stop && !self.interrogate;
        proof {
            if empty {
                assert(self@ =~= Set::<ControlEvent>::empty());
            } else if self.stop {
                assert(self@.contains(ControlEvent::Stop));
            } else {
                assert(self@.contains(ControlEvent::Interrogate));
            }
        }
        empty
    }
}

/// The state of a service as the service manager sees it. The service
/// manager does not ask for it: every change has to be pushed.
#[derive(Clone, Copy, Debug, PartialEq, Eq, Structural)]
pub struct ServiceStatus {
    pub service_type: ServiceType,
    pub current_state: ServiceState,
    pub accepted_controls: AcceptedControls,
    /// The exit code that the service reports; zero for success.
    pub exit_code: u32,
    /// Progress of a pending operation; zero where none is pending.
    pub checkpoint: u32,
    /// Estimated time for a pending operation, in milliseconds; zero where
    /// none is pending.
    pub wait_hint_millis: u32,
}

/// The kind of service that this process runs as.
pub const SERVICE_TYPE: ServiceType = ServiceType::OwnProcess;

/// The status of the service while its workload runs.
pub open spec fn running_status() -> ServiceStatus {
    ServiceStatus {
        service_type: ServiceType::OwnProcess,
        current_state: ServiceState::Running,
        accepted_controls: AcceptedControls { stop: true, interrogate: true },
        exit_code: 0,
        checkpoint: 0,
        wait_hint_millis: 0,
    }
}

/// The status of the service once its workload has returned. The exit code
/// is zero whether the workload succeeded or failed.
pub open spec fn stopped_status() -> ServiceStatus {
    ServiceStatus {
        service_type: ServiceType::OwnProcess,
        current_state: ServiceState::Stopped,
        accepted_controls: AcceptedControls { stop: false, interrogate: false },
        exit_code: 0,
        checkpoint: 0,
        wait_hint_millis: 0,
    }
}

impl ServiceStatus {
    /// The status of the service while its workload runs.
    pub fn running() -> (status: Self)
        ensures
            status == running_status(),
    {
        ServiceStatus {
            service_type: SERVICE_TYPE,
            current_state: ServiceState::Running,
            accepted_controls: AcceptedControls::while_running(),
            exit_code: 0,
            checkpoint: 0,
            wait_hint_millis: 0,
        }
    }

    /// The status of the service once its workload has returned.
    pub fn stopped() -> (status: Self)
        ensures
            status == stopped_status(),
    {
        ServiceStatus {
            service_type: SERVICE_TYPE,
            current_state: ServiceState::Stopped,
            accepted_controls: AcceptedControls::none(),
            exit_code: 0,
            checkpoint: 0,
            wait_hint_millis: 0,
        }
    }
}

} // verus!
