//! Registering the executable with the service manager.
//!
//! Installation is a short chain of requests to the service manager, each
//! made only if the one before it succeeded. The installer decides which
//! request comes next; the caller makes it and reports how it went.

use vstd::prelude::*;
use crate::service::SERVICE_NAME;
use crate::status::{ServiceType, SERVICE_TYPE};

verus! {

/// The name under which the service is shown to users.
pub const SERVICE_DISPLAY_NAME: &'static str = "Geph";

/// The file name of the service's binary. It lies beside the running
/// executable.
pub const SERVICE_BINARY: &'static str = "geph4-client.exe";

/// The description that is set on the installed service.
pub const SERVICE_DESCRIPTION: &'static str =
    "Geph connects you with the censorship-free Internet, even when nothing else works.";

/// When the service manager starts a service.
#[derive(Clone, Copy, Debug, PartialEq, Eq, Structural)]
pub enum StartType {
    AutoStart,
    OnDemand,
    Disabled,
    SystemStart,
    BootStart,
}

/// How the service manager takes a service's failure to start.
#[derive(Clone, Copy, Debug, PartialEq, Eq, Structural)]
pub enum ErrorControl {
    Critical,
    Ignore,
    Normal,
    Severe,
}

/// The rights asked for when connecting to the service manager.
#[derive(Clone, Copy, Debug, PartialEq, Eq, Structural)]
pub struct ManagerAccess {
    pub connect: bool,
    pub create_service: bool,
    pub enumerate_service: bool,
}

/// The rights asked for on a service.
#[derive(Clone, Copy, Debug, PartialEq, Eq, Structural)]
pub struct ServiceAccess {
    pub query_status: bool,
    pub start: bool,
    pub stop: bool,
    pub query_config: bool,
    pub change_config: bool,
    pub delete: bool,
}

/// How the service manager is to register the executable as a service. `P`
/// is the caller's type for a path in the file system.
#[derive(Debug, PartialEq, Eq)]
pub struct InstallDescriptor<P> {
    pub name: &'static str,
    pub display_name: &'static str,
    pub service_type: ServiceType,
    pub start_type: StartType,
    pub error_control: ErrorControl,
    pub executable_path: P,
    pub launch_arguments: Vec<String>,
    pub dependencies: Vec<String>,
    pub account_name: Option<String>,
    pub account_password: Option<String>,
}

/// `descriptor` registers the binary at `executable_path` as this service:
/// a process of its own, started on demand, with no launch arguments, no
/// dependencies and no account of its own.
pub open spec fn describes_service<P>(descriptor: InstallDescriptor<P>, executable_path: P) -> bool {
    &&& descriptor.name@ == SERVICE_NAME@
    &&& descriptor.display_name@ == SERVICE_DISPLAY_NAME@
    &&& descriptor.service_type == ServiceType::OwnProcess
    &&& descriptor.start_type == StartType::OnDemand
    &&& descriptor.error_control == ErrorControl::Normal
    &&& descriptor.executable_path == executable_path
    &&& descriptor.launch_arguments@.len() == 0
    &&& descriptor.dependencies@.len() == 0
    &&& descriptor.account_name is None
    &&& descriptor.account_password is None
}

/// The rights that installation asks of the service manager: to connect and
/// to create a service.
pub open spec fn install_manager_access() -> ManagerAccess {
    ManagerAccess { connect: true, create_service: true, enumerate_service: false }
}

/// The rights that installation asks on the created service: to change its
/// configuration.
pub open spec fn install_service_access() -> ServiceAccess {
    ServiceAccess {
        query_status: false,
        start: false,
        stop: false,
        query_config: false,
        change_config: true,
        delete: false,
    }
}

/// The step at which an installation failed.
#[derive(Clone, Copy, Debug, PartialEq, Eq, Structural)]
pub enum InstallError {
    /// The connection to the service manager could not be made.
    ManagerConnection,
    /// The service manager did not create the service.
    ServiceCreation,
    /// The description could not be set. The service stays created.
    Description,
}

/// A request to the service manager, or the end of the installation.
#[derive(Debug, PartialEq, Eq)]
pub enum InstallRequest<P> {
    /// Connect to the service manager with these rights.
    Connect(ManagerAccess),
    /// Create the service that the descriptor gives, and ask for these
    /// rights on it.
    CreateService(InstallDescriptor<P>, ServiceAccess),
    /// Set this description on the created service.
    SetDescription(&'static str),
    /// Return: the service is installed.
    Finish,
    /// Return this error to the caller. Nothing is rolled back.
    Abort(InstallError),
}

/// An installation in progress: the request that is under way, or how the
/// installation ended.
#[derive(Debug, PartialEq, Eq)]
pub enum Installer<P> {
    /// The connection is being made; the descriptor waits for it.
    Connecting(InstallDescriptor<P>),
    /// The service is being created.
    Creating,
    /// The description is being set.
    Describing,
    /// The service is installed. Nothing follows.
    Installed,
    /// A request failed. Nothing follows.
    Failed(InstallError),
}

/// The installer's rule: what follows `installer` when the request under way
/// has succeeded or failed, and the request that goes with the change.
///
/// A failure ends the installation with the error of the step that failed.
/// An installation that has ended stays as it is and repeats its end.
pub open spec fn install_transition<P>(installer: Installer<P>, succeeded: bool) -> (
    Installer<P>,
    InstallRequest<P>,
) {
    match installer {
        Installer::Connecting(descriptor) => if succeeded {
            (
                Installer::Creating,
                InstallRequest::CreateService(descriptor, install_service_access()),
            )
        } else {
            (
                Installer::Failed(InstallError::ManagerConnection),
                InstallRequest::Abort(InstallError::ManagerConnection),
            )
        },
        Installer::Creating => if succeeded {
            (Installer::Describing, InstallRequest::SetDescription(SERVICE_DESCRIPTION))
        } else {
            (
                Installer::Failed(InstallError::ServiceCreation),
                InstallRequest::Abort(InstallError::ServiceCreation),
            )
        },
        Installer::Describing => if succeeded {
            (Installer::Installed, InstallRequest::Finish)
        } else {
            (
                Installer::Failed(InstallError::Description),
                InstallRequest::Abort(InstallError::Description),
            )
        },
        Installer::Installed => (Installer::Installed, InstallRequest::Finish),
        Installer::Failed(error) => (Installer::Failed(error), InstallRequest::Abort(error)),
    }
}

/// The descriptor of this service, for the binary at `executable_path`.
pub fn service_descriptor<P>(executable_path: P) -> (descriptor: InstallDescriptor<P>)
    ensures
        describes_service(descriptor, executable_path),
{
    InstallDescriptor {
        name: SERVICE_NAME,
        display_name: SERVICE_DISPLAY_NAME,
        service_type: SERVICE_TYPE,
        start_type: StartType::OnDemand,
        error_control: ErrorControl::Normal,
        executable_path,
        launch_arguments: Vec::new(),
        dependencies: Vec::new(),
        account_name: None,
        account_password: None,
    }
}

/// Begins the installation of the service whose binary lies at
/// `executable_path`: the first request is the connection to the service
/// manager, with the rights to connect and to create a service.
pub fn install<P>(executable_path: P) -> (begin: (Installer<P>, InstallRequest<P>))
    ensures
        begin.0 matches Installer::Connecting(descriptor) && describes_service(
            descriptor,
            executable_path,
        ),
        begin.1 == InstallRequest::<P>::Connect(install_manager_access()),
{
    let access = ManagerAccess { connect: true, create_service: true, enumerate_service: false };
    (Installer::Connecting(service_descriptor(executable_path)), InstallRequest::Connect(access))
}

impl<P> Installer<P> {
    /// Takes the outcome of the request under way and answers with the next
    /// request, or with the end of the installation.
    pub fn advance(self, succeeded: bool) -> (next: (Installer<P>, InstallRequest<P>))
        ensures
            next == install_transition(self, succeeded),
    {
        match self {
            Installer::Connecting(descriptor) => if succeeded {
                let access = ServiceAccess {
                    query_status: false,
                    start: false,
                    stop: false,
                    query_config: false,
                    change_config: true,
                    delete: false,
                };
                (Installer::Creating, InstallRequest::CreateService(descriptor, access))
            } else {
                (
                    Installer::Failed(InstallError::ManagerConnection),
                    InstallRequest::Abort(InstallError::ManagerConnection),
                )
            },
            Installer::Creating => if succeeded {
                (Installer::Describing, InstallRequest::SetDescription(SERVICE_DESCRIPTION))
            } else {
                (
                    Installer::Failed(InstallError::ServiceCreation),
                    InstallRequest::Abort(InstallError::ServiceCreation),
                )
            },
            Installer::Describing => if succeeded {
                (Installer::Installed, InstallRequest::Finish)
            } else {
                (
                    Installer::Failed(InstallError::Description),
                    InstallRequest::Abort(InstallError::Description),
                )
            },
            Installer::Installed => (Installer::Installed, InstallRequest::Finish),
            Installer::Failed(error) => (Installer::Failed(error), InstallRequest::Abort(error)),
        }
    }
}

/// The requests that follow one another when `installer` takes `outcomes` in
/// order.
pub open spec fn requests_issued<P>(installer: Installer<P>, outcomes: Seq<bool>) -> Seq<
    InstallRequest<P>,
>
    decreases outcomes.len(),
{
    if outcomes.len() == 0 {
        Seq::empty()
    } else {
        let (next, request) = install_transition(installer, outcomes.first());
        seq![request] + requests_issued(next, outcomes.drop_first())
    }
}

/// A failed installation answers every outcome with its error.
proof fn lemma_failure_is_final<P>(error: InstallError, outcomes: Seq<bool>)
    ensures
        requests_issued(Installer::<P>::Failed(error), outcomes).len() == outcomes.len(),
        forall|i: int|
            0 <= i < outcomes.len() ==> #[trigger] requests_issued(
                Installer::<P>::Failed(error),
                outcomes,
            )[i] == InstallRequest::<P>::Abort(error),
    decreases outcomes.len(),
{
    if outcomes.len() > 0 {
        lemma_failure_is_final::<P>(error, outcomes.drop_first());
    }
}

/// Where the connection to the service manager fails, the installation
/// fails with that error and no service is created: whatever is reported
/// afterwards, every answer is the connection's failure.
pub proof fn lemma_failed_connection_creates_nothing<P>(
    descriptor: InstallDescriptor<P>,
    outcomes: Seq<bool>,
)
    requires
        outcomes.len() > 0,
        !outcomes[0],
    ensures
        requests_issued(Installer::Connecting(descriptor), outcomes).len() == outcomes.len(),
        forall|i: int|
            0 <= i < outcomes.len() ==> #[trigger] requests_issued(
                Installer::Connecting(descriptor),
                outcomes,
            )[i] == InstallRequest::<P>::Abort(InstallError::ManagerConnection),
{
    lemma_failure_is_final::<P>(InstallError::ManagerConnection, outcomes.drop_first());
}

} // verus!
