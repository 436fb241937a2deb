use trade_copier::deps::Os;
use trade_copier::ports::{
    bind_in_use, kill_command, kill_failure_message, pid_from_netstat, pids_from_fuser,
    pids_from_lsof, pids_from_wmic, port_holders, port_lookup_command, port_of_address,
    MAX_BIND_RETRIES,
};

#[test]
fn port_is_after_the_last_colon() {
    assert_eq!(port_of_address("0.0.0.0:5000"), "5000");
    assert_eq!(port_of_address("[::1]:8080"), "8080");
    assert_eq!(port_of_address("nocolon"), "nocolon");
    assert_eq!(port_of_address("host:"), "");
}

#[test]
fn bind_retry_decisions() {
    let r = bind_in_use("127.0.0.1:5001", 1, 48);
    assert_eq!(r.kill_port, Some(5001));
    assert_eq!(r.give_up, None);
    let r = bind_in_use("127.0.0.1:notaport", 2, 48);
    assert_eq!(r.kill_port, None);
    assert_eq!(r.give_up, None);
    let r = bind_in_use("127.0.0.1:70000", MAX_BIND_RETRIES, 98);
    assert_eq!(r.kill_port, None);
    assert_eq!(
        r.give_up,
        Some("Failed to bind to 127.0.0.1:70000 after 3 attempts. Port is still in use (os error 98)".to_string())
    );
}

#[test]
fn lookup_commands() {
    let c = port_lookup_command(Os::MacOs, 5000);
    assert_eq!(c.program, "lsof");
    assert_eq!(c.args, vec!["-ti".to_string(), ":5000".to_string()]);
    let c = port_lookup_command(Os::Windows, 80);
    assert_eq!(c.program, "cmd");
    assert_eq!(c.args, vec!["/C".to_string(), "netstat -ano | findstr :80".to_string()]);
    let c = port_lookup_command(Os::Linux, 65535);
    assert_eq!(c.program, "fuser");
    assert_eq!(c.args, vec!["65535/tcp".to_string()]);
}

#[test]
fn kill_commands() {
    let c = kill_command(Os::Windows, "42");
    assert_eq!(c.program, "taskkill");
    assert_eq!(c.args, vec!["/F".to_string(), "/PID".to_string(), "42".to_string()]);
    let c = kill_command(Os::MacOs, "42");
    assert_eq!(c.program, "kill");
    assert_eq!(c.args, vec!["-9".to_string(), "42".to_string()]);
    assert_eq!(kill_failure_message(5000), "Could not find or kill process on port 5000");
}

#[test]
fn holder_pids_from_outputs() {
    assert_eq!(pids_from_lsof("123\n\n456\n"), vec!["123".to_string(), "456".to_string()]);
    assert_eq!(pids_from_fuser("  123  456\n"), vec!["123".to_string(), "456".to_string()]);
    assert_eq!(
        pid_from_netstat("  TCP    0.0.0.0:5000   0.0.0.0:0   LISTENING   4321\r\n  TCP x y z 99\r\n"),
        Some("4321".to_string())
    );
    assert_eq!(pid_from_netstat(""), None);
    assert_eq!(pid_from_netstat("   \nTCP 1"), None);
    assert_eq!(pids_from_wmic("ProcessId  \r\n1234  \r\nbad\r\n 77 \r\n"), vec![1234, 77]);
    assert_eq!(pids_from_wmic("1234\n"), Vec::<u32>::new());
    assert_eq!(pids_from_wmic("ProcessId\n99999999999\n"), Vec::<u32>::new());
}

#[test]
fn holders_per_system() {
    assert_eq!(port_holders(Os::MacOs, false, "123"), None);
    assert_eq!(port_holders(Os::MacOs, true, ""), Some(vec![]));
    assert_eq!(port_holders(Os::Linux, true, "1 2"), Some(vec!["1".to_string(), "2".to_string()]));
    assert_eq!(port_holders(Os::Windows, true, "TCP a b LISTENING 9\n"), Some(vec!["9".to_string()]));
    assert_eq!(port_holders(Os::Windows, true, ""), None);
}
