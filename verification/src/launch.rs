//! What the process does once the limit on file descriptors is raised.

use vstd::prelude::*;

verus! {

/// What the platform offers for running the workload. It is fixed when the
/// program is built.
#[derive(Clone, Copy, Debug, PartialEq, Eq, Structural)]
pub enum Capability {
    /// The platform has a service manager, and the process runs under it.
    NativeService,
    /// The process runs the workload itself.
    DirectRun,
}

/// What the process was started for.
#[derive(Clone, Copy, Debug, PartialEq, Eq, Structural)]
pub enum Intent {
    /// Install the executable as a service.
    Install,
    /// Run the workload.
    Run,
}

/// The way the process goes on.
#[derive(Clone, Copy, Debug, PartialEq, Eq, Structural)]
pub enum Launch {
    /// Install the service.
    InstallService,
    /// Hand the process over to the service dispatcher.
    StartService,
    /// Call the workload.
    RunWorkload,
}

/// The way that `capability` and `intent` select. Without a service manager
/// the workload is run whatever the intent.
pub open spec fn launch_for(capability: Capability, intent: Intent) -> Launch {
    match capability {
        Capability::DirectRun => Launch::RunWorkload,
        Capability::NativeService => match intent {
            Intent::Install => Launch::InstallService,
            Intent::Run => Launch::StartService,
        },
    }
}

/// Selects the way the process goes on.
pub fn select_launch(capability: Capability, intent: Intent) -> (launch: Launch)
    ensures
        launch == launch_for(capability, intent),
{
    match capability {
        Capability::DirectRun => Launch::RunWorkload,
        Capability::NativeService => match intent {
            Intent::Install => Launch::InstallService,
            Intent::Run => Launch::StartService,
        },
    }
}

} // verus!
