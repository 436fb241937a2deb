use trade_copier::deps::Os;
use trade_copier::instance_config::{Instance as ServerInstance, InstanceConfig};
use trade_copier::mac_cli;
use trade_copier::mac_instances::{Instance as MacInstance, InstanceManager};
use trade_copier::win_cli::{
    config_file_path,
    default_instance_path, delete_decision, directory_exists, list_lines, next_steps, pad_right,
    start_plan, starting_message, DeleteDecision, StartPlan,
};
use trade_copier::win_config::{Config, Instance as WinInstance};
use trade_copier::win_manager::WindowsInstanceManager;

fn win(name: &str, path: &str) -> WinInstance {
    WinInstance { name: name.to_string(), path: path.to_string(), port: None, created_at: "t".to_string() }
}

#[test]
fn padding() {
    assert_eq!(pad_right("ab", 5), "ab   ");
    assert_eq!(pad_right("abcdef", 3), "abcdef");
    assert_eq!(pad_right("é", 3), "é  ");
    assert_eq!(pad_right("x", 4), format!("{:<4}", "x"));
}

#[test]
fn windows_list_output() {
    let empty = Config::new();
    assert_eq!(
        list_lines(&empty, &[]),
        vec![
            "No instances configured.".to_string(),
            "".to_string(),
            "Create a new instance with:".to_string(),
            "  mt5-manager create <name>".to_string(),
        ]
    );
    let mut c = Config::new();
    c.add_instance(win("acc1", "C:\\MT5-acc1")).unwrap();
    c.add_instance(win("acc2", "C:\\MT5-acc2")).unwrap();
    let lines = list_lines(&c, &[true, false]);
    let expected = vec![
        "MT5 Instances:".to_string(),
        "".to_string(),
        format!("{:<20} {:<50} {:<12}", "NAME", "PATH", "STATUS"),
        "-".repeat(82),
        format!("{:<20} {:<50} {:<12}", "acc1", "C:\\MT5-acc1", "Installed"),
        format!("{:<20} {:<50} {:<12}", "acc2", "C:\\MT5-acc2", "Not installed"),
        "".to_string(),
        "Total: 2 instance(s)".to_string(),
    ];
    assert_eq!(lines, expected);
}

#[test]
fn windows_create_delete_start() {
    assert_eq!(default_instance_path(Os::Windows, None, "a"), Ok("C:\\MT5-a".to_string()));
    assert_eq!(default_instance_path(Os::Linux, Some("/home/u"), "a"), Ok("/home/u/MT5-a".to_string()));
    assert_eq!(
        default_instance_path(Os::MacOs, None, "a"),
        Err("environment variable not found".to_string())
    );
    assert_eq!(directory_exists("/x"), "Directory '/x' already exists");
    assert_eq!(
        next_steps("a", "/x"),
        vec![
            "Next steps:".to_string(),
            "1. Install MT5 to: /x".to_string(),
            "2. Run the MT5 installer and select this directory as the installation path".to_string(),
            "3. Once installed, use 'mt5-manager start a' to launch".to_string(),
        ]
    );
    let mut c = Config::new();
    c.add_instance(win("a", "/p/a")).unwrap();
    c.add_instance(win("b", "/p/b")).unwrap();
    assert!(matches!(delete_decision(&c, "b", true), Ok(DeleteDecision::Remove(1))));
    match delete_decision(&c, "a", false) {
        Ok(DeleteDecision::Confirm(lines)) => assert_eq!(
            lines,
            vec![
                "Are you sure you want to delete instance 'a'?".to_string(),
                "Path: /p/a".to_string(),
                "This will remove all files and data in this directory.".to_string(),
                "".to_string(),
                "To confirm, run with --force flag:".to_string(),
                "  mt5-manager delete a --force".to_string(),
            ]
        ),
        other => panic!("unexpected {:?}", other),
    }
    assert_eq!(delete_decision(&c, "z", true).unwrap_err(), "Instance 'z' not found");
    assert!(matches!(start_plan(&c, Some("b")), Ok(StartPlan::Launch(v)) if v == vec![1]));
    assert!(matches!(start_plan(&c, None), Ok(StartPlan::Launch(v)) if v == vec![0, 1]));
    assert_eq!(start_plan(&c, Some("q")).unwrap_err(), "Instance 'q' not found");
    match start_plan(&Config::new(), None) {
        Ok(StartPlan::Nothing(m)) => {
            assert_eq!(m, "No instances configured. Create one with 'mt5-manager create <name>'")
        }
        other => panic!("unexpected {:?}", other),
    }
    assert_eq!(starting_message(2), "Starting 2 instance(s)...");
}

#[test]
fn server_windows_manager() {
    assert_eq!(
        WindowsInstanceManager::new(Os::Linux, Some("C:"), None).unwrap_err(),
        "HOME environment variable not found"
    );
    assert_eq!(
        WindowsInstanceManager::new(Os::Windows, None, Some("/home/u")).unwrap_err(),
        "APPDATA environment variable not found"
    );
    let w = WindowsInstanceManager::new(Os::Windows, Some("C:\\Users\\u\\AppData"), None).unwrap();
    assert_eq!(w.config_path(), "C:\\Users\\u\\AppData\\mt5-manager\\config.json");
    let d = WindowsInstanceManager::new(Os::Windows, Some("D:"), None).unwrap();
    assert_eq!(d.config_path(), "D:mt5-manager\\config.json");
    let m = WindowsInstanceManager::new(Os::Linux, None, Some("/home/u")).unwrap();
    assert_eq!(m.config_path(), "/home/u/.mt5-manager/config.json");
    let mut c = InstanceConfig::new();
    assert_eq!(m.plan_create(&c, "a", Os::Linux, Some("/home/u")), Ok((1, "/home/u/MT5-a".to_string())));
    assert_eq!(m.plan_create(&c, "a", Os::Windows, None), Ok((1, "C:\\MT5-a".to_string())));
    c.add_instance(ServerInstance::new(
        1,
        "a".to_string(),
        "h:1".to_string(),
        1.0f64.to_bits(),
        "/home/u/MT5-a".to_string(),
        "t".to_string(),
    ))
    .unwrap();
    assert_eq!(m.plan_create(&c, "a", Os::Linux, Some("/home/u")), Err("Instance 'a' already exists".to_string()));
    assert_eq!(m.plan_create(&c, "b", Os::Linux, None), Err("environment variable not found".to_string()));
    assert_eq!(m.plan_create(&c, "b", Os::Linux, Some("/h")), Ok((2, "/h/MT5-b".to_string())));
    assert_eq!(
        m.check_delete(&c, "a", false).unwrap_err(),
        "Deletion cancelled - use force=true to confirm"
    );
    assert_eq!(m.check_delete(&c, "a", true).unwrap().path, "/home/u/MT5-a");
    assert_eq!(m.check_delete(&c, "x", true).unwrap_err(), "Instance 'x' not found");
    assert_eq!(m.instance_executable(&c, "a", Os::Linux), Ok("/home/u/MT5-a/terminal64.exe".to_string()));
    assert_eq!(m.instance_executable(&c, "a", Os::Windows), Ok("/home/u/MT5-a\\terminal64.exe".to_string()));
    assert_eq!(m.instance_executable(&c, "x", Os::Linux), Err("Instance 'x' not found".to_string()));
}

fn mac(id: usize, name: &str) -> MacInstance {
    MacInstance::new(id, name.to_string(), format!("/Users/u/.wine-mt5-instance{}", id), "2024-01-02T03:04:05+00:00".to_string())
}

#[test]
fn mac_command_line() {
    let mut m = InstanceManager { instances: Vec::new() };
    assert_eq!(
        mac_cli::list_lines(&m),
        vec![
            "No instances found.".to_string(),
            "Create one with: mt5-manager create --name <name> --installer <path>".to_string(),
        ]
    );
    assert_eq!(mac_cli::create_check(&m, "a"), Ok(1));
    m.add_instance(mac(1, "a"));
    assert_eq!(mac_cli::create_check(&m, "a"), Err("Instance 'a' already exists".to_string()));
    assert_eq!(mac_cli::create_check(&m, "b"), Ok(2));
    m.add_instance(mac(2, "b"));
    assert_eq!(
        mac_cli::list_lines(&m),
        vec![
            "MT5 Instances:\n".to_string(),
            "  a (ID: 1)".to_string(),
            "    Prefix: /Users/u/.wine-mt5-instance1".to_string(),
            "    Created: 2024-01-02T03:04:05+00:00".to_string(),
            "".to_string(),
            "  b (ID: 2)".to_string(),
            "    Prefix: /Users/u/.wine-mt5-instance2".to_string(),
            "    Created: 2024-01-02T03:04:05+00:00".to_string(),
            "".to_string(),
        ]
    );
    assert!(mac_cli::confirms_deletion("yes\n"));
    assert!(mac_cli::confirms_deletion("  yes "));
    assert!(!mac_cli::confirms_deletion("Yes"));
    assert!(!mac_cli::confirms_deletion("y"));
    assert_eq!(
        mac_cli::deletion_prompt("a", "/p"),
        vec![
            "Are you sure you want to delete instance 'a'?".to_string(),
            "This will remove: /p".to_string(),
            "Type 'yes' to confirm:".to_string(),
        ]
    );
    assert_eq!(
        mac_cli::created_lines("a", 1, "/p"),
        vec![
            "\n\u{2713} Instance 'a' created successfully!".to_string(),
            "  ID: 1".to_string(),
            "  Prefix: /p".to_string(),
            "\nYou can now start it with: mt5-manager start a".to_string(),
        ]
    );
    assert_eq!(mac_cli::install_failed_lines("a", "e")[0], "\n\u{26a0} Warning: MT5 installation failed: e");
    assert_eq!(mac_cli::nothing_to_start(), "No instances found. Create one with: mt5-manager create");
    let cli = mac_cli::Cli { command: mac_cli::Commands::Start { name: None, all: true } };
    assert!(matches!(cli.command, mac_cli::Commands::Start { all: true, .. }));
}

#[test]
fn configuration_files() {
    assert_eq!(
        config_file_path(Os::Windows, Some("C:\\Users\\t\\AppData\\Roaming"), None),
        Ok("C:\\Users\\t\\AppData\\Roaming\\mt5-manager\\config.json".to_string())
    );
    assert_eq!(
        config_file_path(Os::Windows, None, Some("/h")),
        Err("APPDATA environment variable not found".to_string())
    );
    assert_eq!(config_file_path(Os::Linux, None, Some("/h")), Ok("/h/.mt5-manager/config.json".to_string()));
    assert_eq!(
        config_file_path(Os::MacOs, Some("x"), None),
        Err("HOME environment variable not found".to_string())
    );
    assert_eq!(mac_cli::instances_file_path(Some("/Users/u")), Ok("/Users/u/.mt5-manager/instances.json".to_string()));
    assert_eq!(mac_cli::instances_file_path(None), Err("Could not find home directory".to_string()));
    assert_eq!(mac_cli::executable_missing("/e"), "MT5 executable not found at /e. Make sure MT5 is installed.");
    assert_eq!(mac_cli::prefix_exists("/p"), "Wine prefix already exists at /p");
    assert_eq!(mac_cli::installer_missing("/i"), "MT5 installer not found at /i");
}
