use trade_copier::calendar::{calendar_error, calendar_url, CalendarFailure};
use trade_copier::commands::{
    check_settings, deleted_message, feature_updated_message, manager_failed, start_worker_failed,
    started_message, stop_send_failed, stopped_message, worker_lookup, ApiResponse, UpdateAction,
    UpdateFlow, UpdateStage,
};
use trade_copier::config::SlaveConfig;
use trade_copier::records::{ErrorRecord, FeatureToggleRecord};
use trade_copier::status::ErrorSeverity;

fn settings(name: &str, address: &str, multiplier: f64) -> SlaveConfig {
    SlaveConfig {
        name: name.to_string(),
        address: address.to_string(),
        multiplier_bits: multiplier.to_bits(),
        symbol_prefix: ".r".to_string(),
    }
}

fn describe(a: &UpdateAction) -> String {
    match a {
        UpdateAction::FetchWorker(id) => format!("fetch {}", id),
        UpdateAction::StopWorker(id) => format!("stop {}", id),
        UpdateAction::Pause(ms) => format!("pause {}", ms),
        UpdateAction::StopInstance => "stop instance".to_string(),
        UpdateAction::WaitPortFree { address, attempts, interval_ms } => {
            format!("wait {} {} {}", address, attempts, interval_ms)
        }
        UpdateAction::SaveSettings(id) => format!("save {}", id),
        UpdateAction::ClearError(a) => format!("clear {}", a),
        UpdateAction::StartInstance => "start instance".to_string(),
        UpdateAction::StartWorker(id) => format!("start {}", id),
        UpdateAction::Finish(Ok(m)) => format!("ok {}", m),
        UpdateAction::Finish(Err(e)) => format!("err {}", e),
        UpdateAction::Idle => "idle".to_string(),
    }
}

fn run(flow: &mut UpdateFlow, outcomes: Vec<Result<Option<String>, String>>) -> Vec<String> {
    let mut out = Vec::new();
    for o in outcomes {
        out.push(describe(&flow.step(&o)));
    }
    out
}

#[test]
fn update_of_a_running_worker_restarts_it() {
    let mut f = UpdateFlow::new(7, settings("w7", "127.0.0.1:5007", 2.0));
    let ok = || Ok(None);
    let steps = run(
        &mut f,
        vec![
            ok(),
            Ok(Some("active".to_string())),
            ok(),
            ok(),
            Err("wine gone".to_string()),
            ok(),
            ok(),
            Err("db locked".to_string()),
            Ok(Some("inactive".to_string())),
            Err("kill failed".to_string()),
            ok(),
            ok(),
        ],
    );
    assert_eq!(
        steps,
        vec![
            "fetch 7",
            "stop 7",
            "pause 1000",
            "stop instance",
            "wait 127.0.0.1:5007 20 500",
            "save 7",
            "clear 127.0.0.1:5007",
            "fetch 7",
            "start instance",
            "start 7",
            "ok Worker 'w7' updated successfully and restarted",
            "idle",
        ]
    );
    assert_eq!(f.stage, UpdateStage::Finished);
    assert!(f.was_active);
}

#[test]
fn update_of_a_stopped_worker_only_saves() {
    let mut f = UpdateFlow::new(3, settings("w3", "h:1", 1.0));
    let steps = run(&mut f, vec![Ok(None), Ok(Some("inactive".to_string())), Ok(None)]);
    assert_eq!(steps, vec!["fetch 3", "save 3", "ok Worker 'w3' updated successfully"]);
    assert!(!f.was_active);
}

#[test]
fn update_refusals() {
    let mut f = UpdateFlow::new(3, settings("", "h:1", 1.0));
    assert_eq!(
        run(&mut f, vec![Ok(None), Ok(None)]),
        vec!["err Invalid configuration: Worker name cannot be empty", "idle"]
    );
    let mut f = UpdateFlow::new(3, settings("w", "h:1", 1.0));
    assert_eq!(
        run(&mut f, vec![Ok(None), Ok(None)]),
        vec!["fetch 3", "err Worker with ID 3 not found"]
    );
    let mut f = UpdateFlow::new(3, settings("w", "h:1", 1.0));
    assert_eq!(
        run(&mut f, vec![Ok(None), Err("io".to_string())]),
        vec!["fetch 3", "err Failed to get worker: io"]
    );
    let mut f = UpdateFlow::new(3, settings("w", "h:1", 1.0));
    assert_eq!(
        run(&mut f, vec![Ok(None), Ok(Some("error".to_string())), Err("busy".to_string())]),
        vec!["fetch 3", "save 3", "err Failed to update worker: busy"]
    );
    let mut f = UpdateFlow::new(3, settings("w", "h:1", 1.0));
    let steps = run(
        &mut f,
        vec![
            Ok(None),
            Ok(Some("active".to_string())),
            Ok(None),
            Ok(None),
            Ok(None),
            Ok(None),
            Ok(None),
            Ok(None),
            Ok(None),
        ],
    );
    assert_eq!(steps.last().unwrap(), "err Updated worker with ID 3 not found");
    let mut f = UpdateFlow::new(-1, settings("w", "h:1", 1.0));
    let steps = run(
        &mut f,
        vec![
            Ok(None),
            Ok(Some("active".to_string())),
            Ok(None),
            Ok(None),
            Ok(None),
            Ok(None),
            Ok(None),
            Ok(None),
            Ok(Some("active".to_string())),
            Ok(None),
            Err("closed".to_string()),
        ],
    );
    assert_eq!(steps.last().unwrap(), "err Worker updated but failed to restart: closed");
}

#[test]
fn command_answers() {
    assert_eq!(check_settings(&settings("w", "h:1", 1.0)), Ok(()));
    assert_eq!(
        check_settings(&settings("w", "h1", 1.0)),
        Err("Invalid configuration: Address must be in format host:port".to_string())
    );
    assert_eq!(manager_failed("x"), "Failed to initialize instance manager: x");
    assert_eq!(worker_lookup(5, &Ok(Some("active".to_string()))), None);
    assert_eq!(worker_lookup(5, &Ok(None)), Some("Worker with ID 5 not found".to_string()));
    assert_eq!(worker_lookup(5, &Err("db".to_string())), Some("Failed to get worker: db".to_string()));
    assert_eq!(deleted_message("a"), "Instance 'a' deleted successfully. Worker stopped.");
    assert_eq!(started_message("a"), "Instance 'a' and worker started successfully");
    assert_eq!(start_worker_failed("e"), "MT5 instance started but failed to start worker: e");
    assert_eq!(stop_send_failed("e"), "Failed to send stop command: e");
    assert_eq!(stopped_message("a"), "Worker 'a' and MT5 instance stopped successfully");
    assert_eq!(feature_updated_message("copier", true), "Feature 'copier' updated to true");
    assert_eq!(feature_updated_message("copier", false), "Feature 'copier' updated to false");
    let r = ApiResponse::ok(5);
    assert!(r.success);
    assert_eq!(r.data, 5);
}

#[test]
fn calendar_requests() {
    assert_eq!(
        calendar_url("2024-01-01", "2024/01/07 23:59"),
        "https://gw2.ftmo.com/public-api/v1/economic-calendar?dateFrom=2024-01-01&dateTo=2024%2F01%2F07%2023%3A59&timezone=Europe/Amsterdam&forceUnrestricted=false"
    );
    assert_eq!(
        calendar_url("é", "a~b_c.d"),
        "https://gw2.ftmo.com/public-api/v1/economic-calendar?dateFrom=%C3%A9&dateTo=a~b_c.d&timezone=Europe/Amsterdam&forceUnrestricted=false"
    );
    assert_eq!(
        calendar_error(&CalendarFailure::Fetch("dns".to_string())),
        "Failed to fetch economic calendar: dns"
    );
    assert_eq!(
        calendar_error(&CalendarFailure::Status("502 Bad Gateway".to_string())),
        "API request failed with status: 502 Bad Gateway"
    );
    assert_eq!(
        calendar_error(&CalendarFailure::Parse("eof".to_string())),
        "Failed to parse response: eof"
    );
}

#[test]
fn records() {
    let r = ErrorRecord::new(
        1,
        2,
        "w".to_string(),
        "h:1".to_string(),
        ErrorSeverity::Critical,
        "boom".to_string(),
        "t".to_string(),
    );
    assert_eq!(r.severity, "critical");
    assert_eq!(r.error_message, "boom");
    let t = FeatureToggleRecord {
        id: 1,
        key: "copier".to_string(),
        enabled: true,
        created_at: "a".to_string(),
        updated_at: "b".to_string(),
    };
    assert!(t.enabled);
}
