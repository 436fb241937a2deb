use trade_copier::deps::Os;
use trade_copier::wine_setup::{
    answer_agrees, brew_command, ensure_chocolatey_installed, ensure_wine_installed,
    ensure_wine_installed_auto, homebrew_found, Setup,
};
use trade_copier::installer::{
    background_install_failed, confirm_deletion, deletion_refused, get_wine_path, get_winecfg_path,
    get_wineserver_path, install_wait_first, install_wait_second, step_failure, tool_in_wine_dir,
    wine_tool_path, InstallWait, InstallerState, InstanceStep, StepContext,
};
use trade_copier::managers::{MacInstanceManager, WindowsInstanceManager};
use trade_copier::status::ErrorSeverity;

#[test]
fn step_failures() {
    let f = step_failure(StepContext::Creating, InstanceStep::EnsureWine, "brew missing");
    assert_eq!(f.message, "Wine installation failed: brew missing");
    assert_eq!(f.severity, ErrorSeverity::Critical);
    assert!(f.aborts);
    let f = step_failure(StepContext::Creating, InstanceStep::CopyExperts, "no dir");
    assert_eq!(
        f.message,
        "Failed to copy Expert Advisors: no dir. You can manually copy them from ./src/mql5/Trading Rocket/"
    );
    assert_eq!(f.severity, ErrorSeverity::Warning);
    assert!(!f.aborts);
    let f = step_failure(StepContext::Starting, InstanceStep::CopyTemplate, "x");
    assert_eq!(f.message, "Failed to copy Default.tpl template: x");
    assert!(!f.aborts);
    let f = step_failure(StepContext::Starting, InstanceStep::Launch, "gone");
    assert_eq!(f.message, "Failed to launch MT5: gone");
    assert!(f.aborts);
    let f = step_failure(StepContext::Creating, InstanceStep::CreatePrefix, "exists");
    assert_eq!(f.message, "Failed to create Wine prefix: exists");
    let f = step_failure(StepContext::Creating, InstanceStep::InstallMt5, "timeout");
    assert_eq!(f.message, "MT5 installation failed: timeout");
    let f = background_install_failed("download failed");
    assert_eq!(f.message, "installation failed: download failed");
    assert_eq!(f.severity, ErrorSeverity::Critical);
    assert_eq!(deletion_refused(), "Deletion cancelled - use force=true to confirm");
}

#[test]
fn wine_lookup() {
    assert_eq!(
        get_wine_path(Some("  /usr/local/bin/wine\n"), &[true, true, true]),
        Ok("/usr/local/bin/wine".to_string())
    );
    assert_eq!(
        get_wine_path(Some("   \n"), &[false, true, true]),
        Ok("/usr/local/bin/wine".to_string())
    );
    assert_eq!(get_wine_path(None, &[true, false, false]), Ok("/opt/homebrew/bin/wine".to_string()));
    assert_eq!(get_wine_path(None, &[false, false, true]), Ok("/opt/local/bin/wine".to_string()));
    assert_eq!(
        get_wine_path(None, &[false, false, false]),
        Err("Wine is not installed. Install it with: brew install --cask wine-stable".to_string())
    );
}

#[test]
fn wine_tools_beside_wine() {
    assert_eq!(
        wine_tool_path("/usr/local/bin/wine", "wineserver"),
        Some("/usr/local/bin/wineserver".to_string())
    );
    assert_eq!(wine_tool_path("wine", "winecfg"), Some("winecfg".to_string()));
    assert_eq!(wine_tool_path("/opt/wine/bin/", "winecfg"), Some("/opt/wine/winecfg".to_string()));
    assert_eq!(wine_tool_path("/", "winecfg"), None);
    assert_eq!(
        get_winecfg_path(&Ok("/opt/wine/bin/wine/.".to_string()), true, "x"),
        Ok("/opt/wine/bin/winecfg".to_string())
    );
    let wine: Result<String, String> = Ok("/a/wine".to_string());
    assert_eq!(get_wineserver_path(&wine, true, "\"/a/wineserver\""), Ok("/a/wineserver".to_string()));
    assert_eq!(
        get_wineserver_path(&wine, false, "\"/a/wineserver\""),
        Err("wineserver not found at \"/a/wineserver\"".to_string())
    );
    assert_eq!(
        get_winecfg_path(&wine, false, "\"/a/winecfg\""),
        Err("winecfg not found at \"/a/winecfg\"".to_string())
    );
    assert_eq!(get_winecfg_path(&Ok("wine".to_string()), true, "x"), Ok("winecfg".to_string()));
    assert_eq!(
        get_winecfg_path(&Ok("/".to_string()), true, "x"),
        Err("Could not determine Wine directory".to_string())
    );
    assert_eq!(get_wineserver_path(&Err("no wine".to_string()), true, "x"), Err("no wine".to_string()));
}

#[test]
fn install_wait_rounds() {
    assert!(matches!(install_wait_first(true, 999, "x"), Some(InstallWait::Installed)));
    assert!(install_wait_first(false, 300, "x").is_none());
    match install_wait_first(false, 301, "\"/p/terminal64.exe\"") {
        Some(InstallWait::Failed { kill, message }) => {
            assert!(kill);
            assert_eq!(
                message,
                "MT5 installation timeout: executable not found at \"/p/terminal64.exe\" after 300 seconds"
            );
        }
        _ => panic!("expected a timeout"),
    }
    assert!(matches!(install_wait_second(&InstallerState::Running, false, "x"), InstallWait::Continue));
    assert!(matches!(install_wait_second(&InstallerState::Exited(Some(0)), true, "x"), InstallWait::Installed));
    match install_wait_second(&InstallerState::Exited(Some(-2)), false, "E") {
        InstallWait::Failed { kill, message } => {
            assert!(!kill);
            assert_eq!(message, "MT5 installation failed: installer exited with code -2 but executable not found at E");
        }
        _ => panic!("expected a failure"),
    }
    match install_wait_second(&InstallerState::Exited(None), false, "E") {
        InstallWait::Failed { message, .. } => {
            assert_eq!(message, "MT5 installation failed: installer exited with code unknown but executable not found at E");
        }
        _ => panic!("expected a failure"),
    }
    match install_wait_second(&InstallerState::Unknown("EPERM".to_string()), false, "E") {
        InstallWait::Failed { kill, message } => {
            assert!(kill);
            assert_eq!(message, "Error checking installer process status: EPERM");
        }
        _ => panic!("expected a failure"),
    }
}

#[test]
fn mac_manager_paths() {
    let m = MacInstanceManager::new().unwrap();
    assert_eq!(
        m.generate_prefix_path("/Users/u/Library/Application Support", 4),
        "/Users/u/Library/Application Support/trade-copier/wine-mt5-instance4"
    );
    assert_eq!(
        m.mt5_executable("/p"),
        "/p/drive_c/Program Files/MetaTrader 5/terminal64.exe"
    );
    assert_eq!(m.instance_prefix(Some("/p")), Ok("/p".to_string()));
    assert_eq!(
        m.instance_prefix(None),
        Err("Instance does not have a wine_prefix configured".to_string())
    );
}

#[test]
fn wine_tool_in_directory() {
    assert_eq!(tool_in_wine_dir(Some("/usr/bin"), "winecfg", true, "x"), Ok("/usr/bin/winecfg".to_string()));
    assert_eq!(tool_in_wine_dir(Some(""), "winecfg", true, "x"), Ok("winecfg".to_string()));
    assert_eq!(
        tool_in_wine_dir(Some("/usr/bin"), "winecfg", false, "\"/usr/bin/winecfg\""),
        Err("winecfg not found at \"/usr/bin/winecfg\"".to_string())
    );
    assert_eq!(
        tool_in_wine_dir(None, "wineserver", true, "x"),
        Err("Could not determine Wine directory".to_string())
    );
}

#[test]
fn deletion_needs_force() {
    assert_eq!(confirm_deletion(true), Ok(()));
    assert_eq!(confirm_deletion(false), Err("Deletion cancelled - use force=true to confirm".to_string()));
}

#[test]
fn windows_manager_paths() {
    let m = WindowsInstanceManager::new().unwrap();
    assert_eq!(
        m.generate_instance_path(Os::Linux, Some("/home/u"), "acc1"),
        Ok("/home/u/MT5-acc1".to_string())
    );
    assert_eq!(
        m.generate_instance_path(Os::Linux, None, "acc1"),
        Err("environment variable not found".to_string())
    );
    assert_eq!(m.generate_instance_path(Os::Windows, None, "acc1"), Ok("C:\\MT5-acc1".to_string()));
    assert_eq!(m.instance_path(None), Err("Instance does not have a path configured".to_string()));
    assert_eq!(m.executable(Os::Linux, "/home/u/MT5-a"), "/home/u/MT5-a/terminal64.exe");
    assert_eq!(m.executable(Os::Windows, "C:\\MT5-a"), "C:\\MT5-a\\terminal64.exe");
    assert_eq!(m.executable(Os::Windows, "C:\\MT5-a\\"), "C:\\MT5-a\\terminal64.exe");
    assert_eq!(
        m.executable_filter(&m.executable(Os::Windows, "C:\\MT5-a")),
        "ExecutablePath='C:\\\\MT5-a\\\\terminal64.exe'"
    );
    assert_eq!(m.check_executable(true, "x"), Ok(()));
    assert_eq!(
        m.check_executable(false, "\"C:\\MT5-a\\terminal64.exe\""),
        Err("MT5 executable not found at '\"C:\\MT5-a\\terminal64.exe\"'. Please install MT5 to this directory first.".to_string())
    );
    assert_eq!(
        m.exe_missing("\"C:/MT5-a/terminal64.exe\""),
        "MT5 executable not found at '\"C:/MT5-a/terminal64.exe\"'. Please install MT5 to this directory first."
    );
    assert_eq!(
        m.executable_filter("C:\\MT5-a\\terminal64.exe"),
        "ExecutablePath='C:\\\\MT5-a\\\\terminal64.exe'"
    );
    assert_eq!(m.executable_filter(""), "ExecutablePath=''");
}

#[test]
fn wine_setup_decisions() {
    assert_eq!(ensure_wine_installed_auto(true), Setup::Ready);
    assert_eq!(ensure_wine_installed_auto(false), Setup::Install);
    assert!(answer_agrees(" Y\n"));
    assert!(answer_agrees("yEs"));
    assert!(!answer_agrees("yes please"));
    assert!(!answer_agrees(""));
    assert_eq!(ensure_wine_installed(true, "no"), Ok(Setup::Ready));
    assert_eq!(ensure_wine_installed(false, "yes"), Ok(Setup::Install));
    assert_eq!(
        ensure_wine_installed(false, "n"),
        Err("Wine installation cancelled by user. Please install Wine manually: brew install --cask wine-stable".to_string())
    );
    assert_eq!(
        ensure_chocolatey_installed(false, "nah"),
        Err("Chocolatey installation cancelled by user".to_string())
    );
    assert_eq!(brew_command(true, true, false), Ok("/opt/homebrew/bin/brew".to_string()));
    assert_eq!(brew_command(false, true, false), Ok("/usr/local/bin/brew".to_string()));
    assert_eq!(brew_command(false, false, true), Ok("brew".to_string()));
    assert_eq!(
        brew_command(false, false, false),
        Err("Homebrew not found. Please ensure Homebrew is installed and in PATH".to_string())
    );
    assert!(homebrew_found(&[false, true], false));
    assert!(homebrew_found(&[false, false], true));
    assert!(!homebrew_found(&[false, false], false));
}
