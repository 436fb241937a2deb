use trade_copier::status::{ErrorSeverity, WorkerState};
use trade_copier::worker::{
    react, report_send, watch_wine, SendOutcome, WatchOutcome, WineWatch, WorkerAction,
    WorkerEvent,
};

fn describe(a: &WorkerAction) -> String {
    match a {
        WorkerAction::MarkActive => "active".to_string(),
        WorkerAction::SetState { state, error } => {
            format!("state {} {}", state.as_str(), error.clone().unwrap_or_default())
        }
        WorkerAction::SetConnected(b) => format!("connected {}", b),
        WorkerAction::RecordError { severity, message } => {
            format!("error {} {}", severity.as_str(), message)
        }
        WorkerAction::RecordLatency(l) => format!("latency {}", l),
        WorkerAction::SaveTrade => "save".to_string(),
    }
}

fn reaction(e: WorkerEvent) -> (Vec<String>, bool) {
    let r = react(&e);
    (r.actions.iter().map(describe).collect(), r.ends_task)
}

#[test]
fn start_and_connection_events() {
    assert_eq!(reaction(WorkerEvent::Started), (vec!["active".to_string()], false));
    assert_eq!(
        reaction(WorkerEvent::TerminalConnected),
        (vec!["connected true".to_string()], false)
    );
    assert_eq!(
        reaction(WorkerEvent::ConnectionClosed),
        (vec!["connected false".to_string()], true)
    );
}

#[test]
fn bind_failure_is_critical_and_ends() {
    assert_eq!(
        reaction(WorkerEvent::BindFailed("in use".to_string())),
        (
            vec![
                "state error Failed to bind to address: in use".to_string(),
                "error critical Failed to bind to address: in use".to_string()
            ],
            true
        )
    );
}

#[test]
fn delivery_events() {
    assert_eq!(
        reaction(WorkerEvent::TradeDelivered(1500)),
        (vec!["latency 1500".to_string(), "save".to_string()], false)
    );
    assert_eq!(
        reaction(WorkerEvent::TradeNotSaved("db".to_string())),
        (vec!["error warning Failed to save trade to database: db".to_string()], false)
    );
    assert_eq!(
        reaction(WorkerEvent::DeliveryFailed("timeout".to_string())),
        (
            vec![
                "state error Failed to send trade: timeout".to_string(),
                "error error Failed to send trade: timeout".to_string()
            ],
            false
        )
    );
}

#[test]
fn shutdown_and_channel_failure_deactivate() {
    assert_eq!(
        reaction(WorkerEvent::ShutdownRequested),
        (vec!["state inactive ".to_string(), "connected false".to_string()], true)
    );
    let (acts, ends) = reaction(WorkerEvent::ChannelFailed("lagged".to_string()));
    assert!(ends);
    assert_eq!(
        acts,
        vec![
            "state error Channel error: lagged".to_string(),
            "error critical Channel error: lagged".to_string(),
            "state inactive ".to_string(),
            "connected false".to_string()
        ]
    );
}

#[test]
fn wine_stopped_is_a_warning() {
    let (acts, ends) = reaction(WorkerEvent::WineStopped("\"/p\"".to_string()));
    assert!(ends);
    let msg = "Wine process stopped for prefix \"/p\". MT5 application closed.";
    assert_eq!(
        acts,
        vec![
            format!("state inactive {}", msg),
            "connected false".to_string(),
            format!("error warning {}", msg)
        ]
    );
    let r = react(&WorkerEvent::HeartbeatFailed("reset".to_string()));
    assert!(!r.ends_task);
    match &r.actions[1] {
        WorkerAction::RecordError { severity, message } => {
            assert_eq!(*severity, ErrorSeverity::Warning);
            assert_eq!(message, "Heartbeat failed, connection lost: reset");
        }
        _ => panic!("expected an error record"),
    }
    let _ = WorkerState::Inactive;
}

#[test]
fn wine_watch_phases() {
    assert_eq!(watch_wine(WineWatch::Waiting, Some(false), false), WatchOutcome::Continue(WineWatch::Waiting));
    assert_eq!(watch_wine(WineWatch::Waiting, None, false), WatchOutcome::Continue(WineWatch::Waiting));
    assert_eq!(watch_wine(WineWatch::Waiting, Some(true), false), WatchOutcome::Continue(WineWatch::Watching));
    assert_eq!(watch_wine(WineWatch::Watching, Some(true), false), WatchOutcome::Continue(WineWatch::Watching));
    assert_eq!(watch_wine(WineWatch::Watching, None, false), WatchOutcome::Continue(WineWatch::Watching));
    assert_eq!(watch_wine(WineWatch::Watching, Some(false), false), WatchOutcome::Stopped);
    assert_eq!(watch_wine(WineWatch::Watching, Some(false), true), WatchOutcome::Quit);
    assert_eq!(watch_wine(WineWatch::Ended, Some(true), false), WatchOutcome::Quit);
}

#[test]
fn send_outcomes() {
    let r = report_send(&SendOutcome::Acknowledged(812));
    assert_eq!(r.result, Ok(812));
    assert!(!r.drop_connection);
    let r = report_send(&SendOutcome::WriteFailed("broken pipe".to_string()));
    assert_eq!(r.result, Err("Connection lost: broken pipe".to_string()));
    assert!(r.drop_connection);
    assert_eq!(report_send(&SendOutcome::NotConnected).result, Err("No MT5 receiver connected".to_string()));
    assert_eq!(report_send(&SendOutcome::AckChannelClosed).result, Err("Acknowledgment channel closed".to_string()));
    assert_eq!(report_send(&SendOutcome::AckTimedOut).result, Err("Acknowledgment timeout".to_string()));
}
