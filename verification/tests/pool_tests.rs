use trade_copier::pool::{restart_detected_note, shutdown_note, stop_not_running, stop_wait_result, StopWait};
use trade_copier::config::worker_key;
use trade_copier::pool::{
    active_workers, wine_prefixes, worker_counts, WorkerCommand, WorkerConfig, WorkerPool,
    WorkerSnapshot,
};

fn snapshot(id: i64, name: &str, state: &str) -> WorkerSnapshot {
    WorkerSnapshot {
        id,
        name: name.to_string(),
        address: format!("127.0.0.1:{}", 5000 + id),
        state: state.to_string(),
        wine_prefix: None,
    }
}

fn config(id: i64, name: &str, prefix: Option<&str>) -> WorkerConfig {
    WorkerConfig {
        id,
        name: name.to_string(),
        address: format!("127.0.0.1:{}", 5000 + id),
        multiplier_bits: 1.0f64.to_bits(),
        wine_prefix: prefix.map(|p| p.to_string()),
        symbol_prefix: String::new(),
    }
}

#[test]
fn pool_insert_and_remove() {
    let mut pool: WorkerPool<u32> = WorkerPool::new();
    assert_eq!(pool.len(), 0);
    pool.insert(worker_key(1, "a"), 10);
    pool.insert(worker_key(2, "b"), 20);
    assert!(pool.is_running("1-a"));
    assert!(!pool.is_running("3-c"));
    pool.insert(worker_key(1, "a"), 11);
    assert_eq!(pool.len(), 2);
    assert_eq!(pool.remove("1-a"), Some(11));
    assert_eq!(pool.remove("1-a"), None);
    assert_eq!(pool.len(), 1);
}

#[test]
fn insert_then_remove_restores_the_pool() {
    let mut pool: WorkerPool<&str> = WorkerPool::new();
    pool.insert("1-a".to_string(), "x");
    pool.insert("2-b".to_string(), "y");
    assert_eq!(pool.remove("2-b"), Some("y"));
    let rest = pool.drain();
    assert_eq!(rest, vec![("1-a".to_string(), "x")]);
    assert_eq!(pool.len(), 0);
}

#[test]
fn drain_keeps_start_order() {
    let mut pool: WorkerPool<i32> = WorkerPool::new();
    pool.insert("3-c".to_string(), 3);
    pool.insert("1-a".to_string(), 1);
    pool.insert("2-b".to_string(), 2);
    let all = pool.drain();
    assert_eq!(
        all,
        vec![("3-c".to_string(), 3), ("1-a".to_string(), 1), ("2-b".to_string(), 2)]
    );
    assert_eq!(pool.len(), 0);
}

#[test]
fn active_and_stale_workers() {
    let ws = vec![
        snapshot(1, "a", "active"),
        snapshot(2, "b", "inactive"),
        snapshot(3, "c", "active"),
        snapshot(4, "d", "error"),
    ];
    assert_eq!(active_workers(&ws), vec![0, 2]);
    let mut pool: WorkerPool<()> = WorkerPool::new();
    pool.insert(worker_key(3, "c"), ());
    assert_eq!(pool.stale_workers(&ws), vec![0]);
    assert_eq!(worker_counts(&ws), (4, 2));
}

#[test]
fn start_checks() {
    let cs = vec![config(1, "a", None), config(2, "b", Some("/w/b"))];
    let mut pool: WorkerPool<()> = WorkerPool::new();
    assert_eq!(pool.check_start(&cs, 2), Ok(1));
    assert_eq!(
        pool.check_start(&cs, 9),
        Err("Worker with ID 9 not found in database".to_string())
    );
    pool.insert(worker_key(2, "b"), ());
    assert_eq!(
        pool.check_start(&cs, 2),
        Err("Worker 'b' (ID: 2) is already running".to_string())
    );
}

#[test]
fn prefixes_of_configured_workers() {
    let cs = vec![config(1, "a", None), config(2, "b", Some("/w/b")), config(3, "c", Some("/w/c"))];
    assert_eq!(wine_prefixes(&cs), vec!["/w/b".to_string(), "/w/c".to_string()]);
}

#[test]
fn worker_commands_compare() {
    assert_eq!(WorkerCommand::Start(1), WorkerCommand::Start(1));
    assert_ne!(WorkerCommand::Start(1), WorkerCommand::Stop(1));
    assert_ne!(WorkerCommand::Reload, WorkerCommand::Stop(0));
}

#[test]
fn stopping_workers() {
    assert_eq!(stop_wait_result(&StopWait::Finished), Ok(()));
    assert_eq!(stop_wait_result(&StopWait::TaskFailed("panicked".to_string())), Err("Worker task error: panicked".to_string()));
    assert_eq!(stop_wait_result(&StopWait::TimedOut), Err("Worker stop timeout".to_string()));
    assert_eq!(stop_not_running(4, &Ok(true), &Ok(())), Ok(()));
    assert_eq!(stop_not_running(4, &Ok(true), &Err("locked".to_string())), Err("Failed to update worker state: locked".to_string()));
    assert_eq!(stop_not_running(4, &Ok(false), &Ok(())), Err("Worker with ID 4 not found".to_string()));
    assert_eq!(stop_not_running(4, &Err("io".to_string()), &Ok(())), Err("Database error: io".to_string()));
    assert_eq!(restart_detected_note(), "Application restart detected - worker was not running");
    assert_eq!(shutdown_note(), "Application shutdown");
}
