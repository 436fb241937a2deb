use trade_copier::deps::{
    check_dependencies_response, get_dependency_status, get_package_manager_name,
    install_dependencies_continue, install_dependencies_start, is_package_manager_installed,
    is_wine_installed, os_name, probed_statuses, InstallAction, InstallNext, InstallerKind, Os,
    SystemDependenciesRecord,
};
use trade_copier::status::DependencyStatus;

fn statuses(actions: &[InstallAction]) -> Vec<String> {
    actions
        .iter()
        .map(|a| match a {
            InstallAction::Record { package_manager, wine, error } => format!(
                "record {} {} {}",
                package_manager.as_str(),
                wine.as_str(),
                error.clone().unwrap_or_default()
            ),
            InstallAction::Announce { package_manager, wine } => {
                format!("announce {} {}", package_manager.as_str(), wine.as_str())
            }
        })
        .collect()
}

#[test]
fn names_per_system() {
    assert_eq!(os_name(Os::MacOs), "macOS");
    assert_eq!(os_name(Os::Windows), "Windows");
    assert_eq!(os_name(Os::Linux), "Linux");
    assert_eq!(get_package_manager_name(Os::MacOs), "Homebrew");
    assert_eq!(get_package_manager_name(Os::Windows), "Chocolatey");
    assert_eq!(get_package_manager_name(Os::Linux), "apt/yum");
}

#[test]
fn probes_per_system() {
    assert!(is_package_manager_installed(Os::Linux, false));
    assert!(!is_package_manager_installed(Os::MacOs, false));
    assert!(is_package_manager_installed(Os::Windows, true));
    assert!(is_wine_installed(Os::Windows, false));
    assert!(is_wine_installed(Os::Linux, false));
    assert!(!is_wine_installed(Os::MacOs, false));
    assert_eq!(
        probed_statuses(true, false),
        (DependencyStatus::Installed, DependencyStatus::Pending)
    );
}

#[test]
fn check_response() {
    let r = check_dependencies_response("macOS", &Some("14.1".to_string()), "Homebrew", true, false);
    assert_eq!(r.os_name, "macOS");
    assert_eq!(r.os_version, Some("14.1".to_string()));
    assert_eq!(r.package_manager_status, "installed");
    assert_eq!(r.wine_status, "pending");
    assert_eq!(r.error_message, None);
    assert!(!r.all_installed);
    let r = check_dependencies_response("Linux", &None, "apt/yum", true, true);
    assert!(r.all_installed);
}

#[test]
fn stored_status() {
    assert!(get_dependency_status(None).is_none());
    let rec = SystemDependenciesRecord {
        id: 1,
        os_name: "Windows".to_string(),
        os_version: None,
        package_manager_name: "Chocolatey".to_string(),
        package_manager_status: "installed".to_string(),
        wine_status: "installed".to_string(),
        last_checked_at: "2024-01-01T00:00:00Z".to_string(),
        error_message: None,
    };
    let r = get_dependency_status(Some(rec)).unwrap();
    assert!(r.all_installed);
    assert_eq!(r.package_manager_name, "Chocolatey");
    let rec = SystemDependenciesRecord {
        id: 2,
        os_name: "macOS".to_string(),
        os_version: Some("13".to_string()),
        package_manager_name: "Homebrew".to_string(),
        package_manager_status: "installed".to_string(),
        wine_status: "error".to_string(),
        last_checked_at: "t".to_string(),
        error_message: Some("boom".to_string()),
    };
    let r = get_dependency_status(Some(rec)).unwrap();
    assert!(!r.all_installed);
    assert_eq!(r.error_message, Some("boom".to_string()));
}

#[test]
fn mac_install_from_scratch() {
    let s = install_dependencies_start(Os::MacOs, false, false);
    assert_eq!(statuses(&s.actions), vec!["record installing pending ", "announce installing pending"]);
    assert!(matches!(s.next, InstallNext::RunInstaller(InstallerKind::PackageManager)));
    let s = install_dependencies_continue(Os::MacOs, InstallerKind::PackageManager, false, Ok(()));
    assert_eq!(
        statuses(&s.actions),
        vec![
            "record installed pending ",
            "announce installed pending",
            "record installed installing ",
            "announce installed installing"
        ]
    );
    assert!(matches!(s.next, InstallNext::RunInstaller(InstallerKind::Wine)));
    let s = install_dependencies_continue(Os::MacOs, InstallerKind::Wine, false, Ok(()));
    assert_eq!(statuses(&s.actions), vec!["record installed installed "]);
    assert!(matches!(s.next, InstallNext::FinalCheck));
}

#[test]
fn install_failures_are_recorded() {
    let s = install_dependencies_continue(
        Os::Windows,
        InstallerKind::PackageManager,
        true,
        Err("no network".to_string()),
    );
    assert_eq!(statuses(&s.actions), vec!["record error pending Failed to install Chocolatey: no network"]);
    match s.next {
        InstallNext::Failed { package_manager, wine, error } => {
            assert_eq!(package_manager, DependencyStatus::Error);
            assert_eq!(wine, DependencyStatus::Pending);
            assert_eq!(error, "Failed to install Chocolatey: no network");
        }
        _ => panic!("expected a failure"),
    }
    let s = install_dependencies_continue(Os::MacOs, InstallerKind::Wine, false, Err("x".to_string()));
    assert_eq!(statuses(&s.actions), vec!["record installed error Failed to install Wine: x"]);
}

#[test]
fn nothing_missing_goes_to_final_check() {
    let s = install_dependencies_start(Os::MacOs, true, true);
    assert!(s.actions.is_empty());
    assert!(matches!(s.next, InstallNext::FinalCheck));
    let s = install_dependencies_start(Os::Windows, true, false);
    assert!(s.actions.is_empty());
    assert!(matches!(s.next, InstallNext::FinalCheck));
}

#[test]
fn linux_records_without_installers() {
    let s = install_dependencies_start(Os::Linux, false, false);
    assert_eq!(
        statuses(&s.actions),
        vec![
            "record installing pending ",
            "announce installing pending",
            "record installed pending ",
            "announce installed pending",
            "record installed installing ",
            "announce installed installing",
            "record installed installed "
        ]
    );
    assert!(matches!(s.next, InstallNext::FinalCheck));
}
