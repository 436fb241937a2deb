use trade_copier::instance_config::{Instance as ServerInstance, InstanceConfig};
use trade_copier::mac_instances::{generate_prefix_path, Instance as MacInstance, InstanceManager};
use trade_copier::registry::largest_id;
use trade_copier::win_config::{Config, Instance as WinInstance};

fn win(name: &str, path: &str) -> WinInstance {
    WinInstance {
        name: name.to_string(),
        path: path.to_string(),
        port: None,
        created_at: "2024-05-01T10:00:00+00:00".to_string(),
    }
}

fn mac(id: usize, name: &str) -> MacInstance {
    MacInstance::new(
        id,
        name.to_string(),
        format!("/Users/u/.wine-mt5-instance{}", id),
        "2024-05-01T10:00:00+00:00".to_string(),
    )
}

fn server(id: usize, name: &str) -> ServerInstance {
    ServerInstance::new(
        id,
        name.to_string(),
        "127.0.0.1:5001".to_string(),
        2.0f64.to_bits(),
        format!("/home/u/MT5-{}", name),
        "t".to_string(),
    )
}

#[test]
fn windows_config_add_get_remove() {
    let mut c = Config::new();
    assert!(c.add_instance(win("a", "/a")).is_ok());
    assert!(c.add_instance(win("b", "/b")).is_ok());
    assert_eq!(
        c.add_instance(win("a", "/other")),
        Err("Instance 'a' already exists".to_string())
    );
    assert_eq!(c.instances.len(), 2);
    assert_eq!(c.get_instance("b").map(|i| i.path.clone()), Some("/b".to_string()));
    assert_eq!(c.position("b"), Some(1));
    assert!(c.get_instance("z").is_none());
    let removed = c.remove_instance("a").unwrap();
    assert_eq!(removed.path, "/a");
    assert_eq!(c.remove_instance("a").unwrap_err(), "Instance 'a' not found");
    assert_eq!(c.instances.len(), 1);
}

#[test]
fn add_then_remove_gives_back_the_list() {
    let mut c = Config::new();
    c.add_instance(win("a", "/a")).unwrap();
    c.add_instance(win("new", "/n")).unwrap();
    let r = c.remove_instance("new").unwrap();
    assert_eq!(r.name, "new");
    assert_eq!(c.instances.len(), 1);
    assert_eq!(c.instances[0].name, "a");
}

#[test]
fn server_config_ids() {
    let mut c = InstanceConfig::new();
    assert_eq!(c.next_id(), 1);
    c.add_instance(server(4, "x")).unwrap();
    c.add_instance(server(2, "y")).unwrap();
    assert_eq!(c.next_id(), 5);
    assert!(c.get_instance("y").is_some());
    assert_eq!(
        c.add_instance(server(9, "y")).unwrap_err(),
        "Instance 'y' already exists"
    );
    c.remove_instance("x").unwrap();
    assert_eq!(c.next_id(), 3);
    let fresh = ServerInstance::new(7, "z".to_string(), "h:1".to_string(), 1.0f64.to_bits(), "/p".to_string(), "2024-06-01T00:00:00+00:00".to_string());
    assert_eq!(fresh.id, 7);
    assert_eq!(fresh.created_at, "2024-06-01T00:00:00+00:00");
}

#[test]
fn mac_manager_lookup_and_start_selection() {
    let mut m = InstanceManager { instances: Vec::new() };
    assert_eq!(m.next_id(), 1);
    m.add_instance(mac(1, "one"));
    m.add_instance(mac(3, "three"));
    assert_eq!(m.next_id(), 4);
    assert_eq!(m.get_instance("three"), Ok(1));
    assert_eq!(m.get_instance("two"), Err("Instance 'two' not found".to_string()));
    assert_eq!(m.start_selection(None, true), Ok(vec![0, 1]));
    assert_eq!(m.start_selection(Some("one"), false), Ok(vec![0]));
    assert_eq!(
        m.start_selection(Some("nope"), false),
        Err("Instance 'nope' not found".to_string())
    );
    assert_eq!(
        m.start_selection(None, false),
        Err("Please specify an instance name or use --all to start all instances".to_string())
    );
    let removed = m.remove_instance("one").unwrap();
    assert_eq!(removed.id, 1);
    assert_eq!(m.instances.len(), 1);
}

#[test]
fn mac_paths() {
    assert_eq!(generate_prefix_path("/Users/u", 3), "/Users/u/.wine-mt5-instance3");
    assert_eq!(generate_prefix_path("/", 12), "/.wine-mt5-instance12");
    assert_eq!(
        mac(2, "b").mt5_executable(),
        "/Users/u/.wine-mt5-instance2/drive_c/Program Files/MetaTrader 5/terminal64.exe"
    );
    let fresh = MacInstance::new(5, "n".to_string(), "/x".to_string(), "t0".to_string());
    assert_eq!(fresh.name, "n");
    assert_eq!(fresh.created_at, "t0");
}

#[test]
fn largest_ids() {
    assert_eq!(largest_id(&vec![]), 0);
    assert_eq!(largest_id(&vec![3, 9, 2]), 9);
}
