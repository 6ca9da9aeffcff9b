use geph_bootstrap::install::{
    install, service_descriptor, ErrorControl, InstallDescriptor, InstallError, InstallRequest,
    Installer, ManagerAccess, ServiceAccess, StartType, SERVICE_BINARY, SERVICE_DESCRIPTION,
    SERVICE_DISPLAY_NAME,
};
use geph_bootstrap::status::ServiceType;

fn expected_descriptor(path: &str) -> InstallDescriptor<String> {
    InstallDescriptor {
        name: "Geph",
        display_name: "Geph",
        service_type: ServiceType::OwnProcess,
        start_type: StartType::OnDemand,
        error_control: ErrorControl::Normal,
        executable_path: String::from(path),
        launch_arguments: vec![],
        dependencies: vec![],
        account_name: None,
        account_password: None,
    }
}

fn change_config() -> ServiceAccess {
    ServiceAccess {
        query_status: false,
        start: false,
        stop: false,
        query_config: false,
        change_config: true,
        delete: false,
    }
}

#[test]
fn names_of_the_installed_service() {
    assert_eq!(SERVICE_DISPLAY_NAME, "Geph");
    assert_eq!(SERVICE_BINARY, "geph4-client.exe");
    assert_eq!(
        SERVICE_DESCRIPTION,
        "Geph connects you with the censorship-free Internet, even when nothing else works."
    );
}

#[test]
fn descriptor_points_at_the_given_binary() {
    let descriptor = service_descriptor(String::from("C:\\geph\\geph4-client.exe"));
    assert_eq!(descriptor, expected_descriptor("C:\\geph\\geph4-client.exe"));
    assert!(descriptor.dependencies.is_empty());
    assert!(descriptor.launch_arguments.is_empty());
    assert_eq!(descriptor.account_name, None);
    assert_eq!(descriptor.account_password, None);
}

#[test]
fn install_begins_with_the_connection() {
    let (installer, request) = install(String::from("a.exe"));
    assert_eq!(
        request,
        InstallRequest::Connect(ManagerAccess {
            connect: true,
            create_service: true,
            enumerate_service: false,
        })
    );
    assert_eq!(installer, Installer::Connecting(expected_descriptor("a.exe")));
}

#[test]
fn install_without_rights_fails_and_creates_nothing() {
    let (installer, _) = install(String::from("a.exe"));
    let (installer, request) = installer.advance(false);
    assert_eq!(request, InstallRequest::Abort(InstallError::ManagerConnection));
    assert_eq!(installer, Installer::Failed(InstallError::ManagerConnection));
    let mut installer = installer;
    for outcome in [true, false, true] {
        let (next, request) = installer.advance(outcome);
        assert!(!matches!(request, InstallRequest::CreateService(_, _)));
        assert_eq!(request, InstallRequest::Abort(InstallError::ManagerConnection));
        installer = next;
    }
}

#[test]
fn connection_is_followed_by_the_creation() {
    let (installer, _) = install(String::from("a.exe"));
    let (installer, request) = installer.advance(true);
    assert_eq!(
        request,
        InstallRequest::CreateService(expected_descriptor("a.exe"), change_config())
    );
    assert_eq!(installer, Installer::Creating);
}

#[test]
fn rejected_creation_is_surfaced() {
    let (installer, _) = install(String::from("a.exe"));
    let (installer, _) = installer.advance(true);
    let (installer, request) = installer.advance(false);
    assert_eq!(request, InstallRequest::Abort(InstallError::ServiceCreation));
    assert_eq!(installer, Installer::Failed(InstallError::ServiceCreation));
}

#[test]
fn creation_is_followed_by_the_description() {
    let (installer, _) = install(String::from("a.exe"));
    let (installer, _) = installer.advance(true);
    let (installer, request) = installer.advance(true);
    assert_eq!(
        request,
        InstallRequest::SetDescription(
            "Geph connects you with the censorship-free Internet, even when nothing else works."
        )
    );
    assert_eq!(installer, Installer::Describing);
}

#[test]
fn failed_description_is_surfaced() {
    let (installer, _) = install(String::from("a.exe"));
    let (installer, _) = installer.advance(true);
    let (installer, _) = installer.advance(true);
    let (installer, request) = installer.advance(false);
    assert_eq!(request, InstallRequest::Abort(InstallError::Description));
    assert_eq!(installer, Installer::Failed(InstallError::Description));
}

#[test]
fn three_successes_install_the_service() {
    let (installer, _) = install(String::from("a.exe"));
    let (installer, _) = installer.advance(true);
    let (installer, _) = installer.advance(true);
    let (installer, request) = installer.advance(true);
    assert_eq!(request, InstallRequest::Finish);
    assert_eq!(installer, Installer::Installed);
    let (installer, request) = installer.advance(false);
    assert_eq!(request, InstallRequest::Finish);
    assert_eq!(installer, Installer::Installed);
}

#[test]
fn descriptor_carries_any_kind_of_path() {
    let path = std::path::PathBuf::from("bin").join(SERVICE_BINARY);
    let (installer, _) = install(path.clone());
    match installer.advance(true).1 {
        InstallRequest::CreateService(descriptor, _) => assert_eq!(descriptor.executable_path, path),
        _ => unreachable!(),
    }
}
