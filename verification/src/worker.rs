//! How a worker reacts to what happens around it: the bookkeeping that each
//! event of its terminal connection, its trade channel and its Wine process
//! calls for, and whether the task that saw the event ends.
use vstd::prelude::*;
use crate::status::{WorkerState, ErrorSeverity};
use crate::text::{owned, concat2, concat3};

verus! {

/// Something a worker task observed.
#[derive(Debug, Clone)]
pub enum WorkerEvent {
    /// The worker task started.
    Started,
    /// Binding the listening address failed with this error.
    BindFailed(String),
    /// A terminal connected.
    TerminalConnected,
    /// Accepting a connection failed with this error.
    AcceptFailed(String),
    /// A trade was delivered and acknowledged after this many microseconds.
    TradeDelivered(u64),
    /// Storing a delivered trade failed with this error.
    TradeNotSaved(String),
    /// Writing to the terminal failed; the connection is dropped.
    TerminalWriteFailed,
    /// Delivering a trade failed with this error.
    DeliveryFailed(String),
    /// The trade channel failed with this error.
    ChannelFailed(String),
    /// The shutdown signal arrived.
    ShutdownRequested,
    /// The terminal closed the connection, or reading from it failed.
    ConnectionClosed,
    /// A heartbeat could not be written (this error); the connection is dropped.
    HeartbeatFailed(String),
    /// The terminal's Wine process is gone; the prefix as the log prints it.
    WineStopped(String),
}

/// Bookkeeping a worker event calls for.
#[derive(Debug, Clone)]
pub enum WorkerAction {
    /// Store the worker as active, with its configuration.
    MarkActive,
    /// Store this state and last error.
    SetState { state: WorkerState, error: Option<String> },
    /// Store whether the terminal is connected.
    SetConnected(bool),
    /// Log an error of this severity.
    RecordError { severity: ErrorSeverity, message: String },
    /// Store the latency of the last delivery, in microseconds.
    RecordLatency(u64),
    /// Store the delivered trade.
    SaveTrade,
}

/// The bookkeeping for an event, and whether the task that saw it ends.
#[derive(Debug, Clone)]
pub struct WorkerReaction {
    pub actions: Vec<WorkerAction>,
    pub ends_task: bool,
}

/// A worker action with its texts as characters.
pub enum ActionModel {
    MarkActive,
    SetState(WorkerState, Option<Seq<char>>),
    SetConnected(bool),
    RecordError(ErrorSeverity, Seq<char>),
    RecordLatency(u64),
    SaveTrade,
}

/// The model of a worker action.
pub open spec fn action_model(a: WorkerAction) -> ActionModel {
    match a {
        WorkerAction::MarkActive => ActionModel::MarkActive,
        WorkerAction::SetState { state, error } => ActionModel::SetState(
            state,
            match error {
                Some(e) => Some(e@),
                None => None,
            },
        ),
        WorkerAction::SetConnected(b) => ActionModel::SetConnected(b),
        WorkerAction::RecordError { severity, message } => ActionModel::RecordError(
            severity,
            message@,
        ),
        WorkerAction::RecordLatency(l) => ActionModel::RecordLatency(l),
        WorkerAction::SaveTrade => ActionModel::SaveTrade,
    }
}

/// An error that puts the worker in the error state and is logged.
pub open spec fn failure(severity: ErrorSeverity, msg: Seq<char>) -> Seq<ActionModel> {
    seq![
        ActionModel::SetState(WorkerState::Error, Some(msg)),
        ActionModel::RecordError(severity, msg),
    ]
}

/// What the worker stores when its trade loop ends: inactive, terminal gone.
pub open spec fn deactivation() -> Seq<ActionModel> {
    seq![ActionModel::SetState(WorkerState::Inactive, None), ActionModel::SetConnected(false)]
}

/// The reaction to each event.
pub open spec fn reaction(e: WorkerEvent) -> (Seq<ActionModel>, bool) {
    match e {
        WorkerEvent::Started => (seq![ActionModel::MarkActive], false),
        WorkerEvent::BindFailed(m) => (
            failure(ErrorSeverity::Critical, "Failed to bind to address: "@ + m@),
            true,
        ),
        WorkerEvent::TerminalConnected => (seq![ActionModel::SetConnected(true)], false),
        WorkerEvent::AcceptFailed(m) => (
            failure(ErrorSeverity::Error, "Failed to accept connection: "@ + m@),
            false,
        ),
        WorkerEvent::TradeDelivered(l) => (
            seq![ActionModel::RecordLatency(l), ActionModel::SaveTrade],
            false,
        ),
        WorkerEvent::TradeNotSaved(m) => (
            seq![
                ActionModel::RecordError(
                    ErrorSeverity::Warning,
                    "Failed to save trade to database: "@ + m@,
                ),
            ],
            false,
        ),
        WorkerEvent::TerminalWriteFailed => (seq![ActionModel::SetConnected(false)], false),
        WorkerEvent::DeliveryFailed(m) => (
            failure(ErrorSeverity::Error, "Failed to send trade: "@ + m@),
            false,
        ),
        WorkerEvent::ChannelFailed(m) => (
            failure(ErrorSeverity::Critical, "Channel error: "@ + m@) + deactivation(),
            true,
        ),
        WorkerEvent::ShutdownRequested => (deactivation(), true),
        WorkerEvent::ConnectionClosed => (seq![ActionModel::SetConnected(false)], true),
        WorkerEvent::HeartbeatFailed(m) => (
            seq![
                ActionModel::SetConnected(false),
                ActionModel::RecordError(
                    ErrorSeverity::Warning,
                    "Heartbeat failed, connection lost: "@ + m@,
                ),
            ],
            false,
        ),
        WorkerEvent::WineStopped(p) => {
            let msg = "Wine process stopped for prefix "@ + p@ + ". MT5 application closed."@;
            (
                seq![
                    ActionModel::SetState(WorkerState::Inactive, Some(msg)),
                    ActionModel::SetConnected(false),
                    ActionModel::RecordError(ErrorSeverity::Warning, msg),
                ],
                true,
            )
        },
    }
}

/// The models of a list of actions.
pub open spec fn models(v: Seq<WorkerAction>) -> Seq<ActionModel> {
    v.map_values(|a: WorkerAction| action_model(a))
}

fn list1(a: WorkerAction) -> (v: Vec<WorkerAction>)
    ensures
        models(v@) == seq![action_model(a)],
{
    let mut v: Vec<WorkerAction> = Vec::new();
    v.push(a);
    assert(models(v@) =~= seq![action_model(a)]);
    v
}

fn list2(a: WorkerAction, b: WorkerAction) -> (v: Vec<WorkerAction>)
    ensures
        models(v@) == seq![action_model(a), action_model(b)],
{
    let mut v: Vec<WorkerAction> = Vec::new();
    v.push(a);
    v.push(b);
    assert(models(v@) =~= seq![action_model(a), action_model(b)]);
    v
}

fn failure_actions(severity: ErrorSeverity, msg: String) -> (v: Vec<WorkerAction>)
    ensures
        models(v@) == failure(severity, msg@),
{
    let m2 = msg.clone();
    list2(
        WorkerAction::SetState { state: WorkerState::Error, error: Some(msg) },
        WorkerAction::RecordError { severity, message: m2 },
    )
}

/// The bookkeeping an event calls for, and whether the task that saw it ends.
pub fn react(event: &WorkerEvent) -> (r: WorkerReaction)
    ensures
        (models(r.actions@), r.ends_task) == reaction(*event),
{
    match event {
        WorkerEvent::Started => WorkerReaction {
            actions: list1(WorkerAction::MarkActive),
            ends_task: false,
        },
        WorkerEvent::BindFailed(m) => WorkerReaction {
            actions: failure_actions(
                ErrorSeverity::Critical,
                concat2("Failed to bind to address: ", m.as_str()),
            ),
            ends_task: true,
        },
        WorkerEvent::TerminalConnected => WorkerReaction {
            actions: list1(WorkerAction::SetConnected(true)),
            ends_task: false,
        },
        WorkerEvent::AcceptFailed(m) => WorkerReaction {
            actions: failure_actions(
                ErrorSeverity::Error,
                concat2("Failed to accept connection: ", m.as_str()),
            ),
            ends_task: false,
        },
        WorkerEvent::TradeDelivered(l) => WorkerReaction {
            actions: list2(WorkerAction::RecordLatency(*l), WorkerAction::SaveTrade),
            ends_task: false,
        },
        WorkerEvent::TradeNotSaved(m) => WorkerReaction {
            actions: list1(
                WorkerAction::RecordError {
                    severity: ErrorSeverity::Warning,
                    message: concat2("Failed to save trade to database: ", m.as_str()),
                },
            ),
            ends_task: false,
        },
        WorkerEvent::TerminalWriteFailed => WorkerReaction {
            actions: list1(WorkerAction::SetConnected(false)),
            ends_task: false,
        },
        WorkerEvent::DeliveryFailed(m) => WorkerReaction {
            actions: failure_actions(
                ErrorSeverity::Error,
                concat2("Failed to send trade: ", m.as_str()),
            ),
            ends_task: false,
        },
        WorkerEvent::ChannelFailed(m) => {
            let mut v = failure_actions(
                ErrorSeverity::Critical,
                concat2("Channel error: ", m.as_str()),
            );
            let ghost before = models(v@);
            v.push(WorkerAction::SetState { state: WorkerState::Inactive, error: None });
            v.push(WorkerAction::SetConnected(false));
            assert(models(v@) =~= before + deactivation());
            WorkerReaction { actions: v, ends_task: true }
        },
        WorkerEvent::ShutdownRequested => WorkerReaction {
            actions: list2(
                WorkerAction::SetState { state: WorkerState::Inactive, error: None },
                WorkerAction::SetConnected(false),
            ),
            ends_task: true,
        },
        WorkerEvent::ConnectionClosed => WorkerReaction {
            actions: list1(WorkerAction::SetConnected(false)),
            ends_task: true,
        },
        WorkerEvent::HeartbeatFailed(m) => WorkerReaction {
            actions: list2(
                WorkerAction::SetConnected(false),
                WorkerAction::RecordError {
                    severity: ErrorSeverity::Warning,
                    message: concat2("Heartbeat failed, connection lost: ", m.as_str()),
                },
            ),
            ends_task: false,
        },
        WorkerEvent::WineStopped(p) => {
            let msg = concat3(
                "Wine process stopped for prefix ",
                p.as_str(),
                ". MT5 application closed.",
            );
            let m2 = msg.clone();
            let mut v = list2(
                WorkerAction::SetState { state: WorkerState::Inactive, error: Some(msg) },
                WorkerAction::SetConnected(false),
            );
            let ghost before = models(v@);
            v.push(WorkerAction::RecordError { severity: ErrorSeverity::Warning, message: m2 });
            assert(models(v@) =~= before.push(
                ActionModel::RecordError(ErrorSeverity::Warning, m2@),
            ));
            WorkerReaction { actions: v, ends_task: true }
        },
    }
}

/// Where the watch over a terminal's Wine process stands.
#[derive(Debug, Clone, Copy, PartialEq, Eq, Structural)]
pub enum WineWatch {
    /// The process has not been seen yet; its absence is not a failure.
    Waiting,
    /// The process was seen; its absence now means the terminal closed.
    Watching,
    /// The watch is over.
    Ended,
}

/// What one look at the Wine process leads to.
#[derive(Debug, Clone, Copy, PartialEq, Eq, Structural)]
pub enum WatchOutcome {
    /// Keep watching, in this phase.
    Continue(WineWatch),
    /// The process is gone: the worker reacts to `WineStopped`.
    Stopped,
    /// Shut down without a fuss.
    Quit,
}

/// One tick of the watch: `running` is what the process check found
/// (`None` when the check failed, which is only logged), `shutdown` whether
/// the shutdown signal arrived.
pub open spec fn watch_step(phase: WineWatch, running: Option<bool>, shutdown: bool) -> WatchOutcome {
    if shutdown || phase == WineWatch::Ended {
        WatchOutcome::Quit
    } else {
        match phase {
            WineWatch::Waiting => if running == Some(true) {
                WatchOutcome::Continue(WineWatch::Watching)
            } else {
                WatchOutcome::Continue(WineWatch::Waiting)
            },
            _ => if running == Some(false) {
                WatchOutcome::Stopped
            } else {
                WatchOutcome::Continue(WineWatch::Watching)
            },
        }
    }
}

/// Decides one tick of the watch over the Wine process.
pub fn watch_wine(phase: WineWatch, running: Option<bool>, shutdown: bool) -> (o: WatchOutcome)
    ensures
        o == watch_step(phase, running, shutdown),
{
    if shutdown {
        return WatchOutcome::Quit;
    }
    match phase {
        WineWatch::Ended => WatchOutcome::Quit,
        WineWatch::Waiting => match running {
            Some(true) => WatchOutcome::Continue(WineWatch::Watching),
            _ => WatchOutcome::Continue(WineWatch::Waiting),
        },
        WineWatch::Watching => match running {
            Some(false) => WatchOutcome::Stopped,
            _ => WatchOutcome::Continue(WineWatch::Watching),
        },
    }
}

/// Whether an event means the terminal connection is gone: a failed write
/// or heartbeat, a closed connection, a stopped Wine process, or the end of
/// the trade loop.
pub open spec fn loses_terminal(e: WorkerEvent) -> bool {
    ||| e is HeartbeatFailed
    ||| e is TerminalWriteFailed
    ||| e is ConnectionClosed
    ||| e is WineStopped
    ||| e is ChannelFailed
    ||| e is ShutdownRequested
}

/// A lost terminal is always stored as disconnected, never as connected; and
/// the terminal is stored as connected only when one connects.
pub proof fn lemma_connection_bookkeeping(e: WorkerEvent)
    ensures
        loses_terminal(e) ==> reaction(e).0.contains(ActionModel::SetConnected(false)),
        loses_terminal(e) ==> !reaction(e).0.contains(ActionModel::SetConnected(true)),
        reaction(e).0.contains(ActionModel::SetConnected(true)) <==> e is TerminalConnected,
{
    let a = reaction(e).0;
    match e {
        WorkerEvent::TerminalConnected => {
            assert(a[0] == ActionModel::SetConnected(true));
        },
        WorkerEvent::HeartbeatFailed(_) => {
            assert(a[0] == ActionModel::SetConnected(false));
        },
        WorkerEvent::TerminalWriteFailed => {
            assert(a[0] == ActionModel::SetConnected(false));
        },
        WorkerEvent::ConnectionClosed => {
            assert(a[0] == ActionModel::SetConnected(false));
        },
        WorkerEvent::WineStopped(_) => {
            assert(a[1] == ActionModel::SetConnected(false));
        },
        WorkerEvent::ChannelFailed(_) => {
            assert(a[3] == ActionModel::SetConnected(false));
        },
        WorkerEvent::ShutdownRequested => {
            assert(a[1] == ActionModel::SetConnected(false));
        },
        _ => {},
    }
}

/// The task that saw an event ends exactly when it cannot go on: binding
/// failed, the trade channel failed, shutdown was asked for, the terminal
/// closed the connection or its Wine process stopped.
pub proof fn lemma_task_ends(e: WorkerEvent)
    ensures
        reaction(e).1 <==> (e is BindFailed || e is ChannelFailed || e is ShutdownRequested
            || e is ConnectionClosed || e is WineStopped),
{
}

/// An error an event reports is logged with the event's own text at its end,
/// and one that puts the worker in the error state stores that same text as
/// its last error.
pub proof fn lemma_errors_carry_text(e: WorkerEvent)
    ensures
        forall|k: int|
            0 <= k < reaction(e).0.len() ==> match #[trigger] reaction(e).0[k] {
                ActionModel::RecordError(_, msg) => match e {
                    WorkerEvent::BindFailed(m) => msg.len() >= m@.len() && msg.subrange(
                        msg.len() - m@.len(),
                        msg.len() as int,
                    ) == m@,
                    WorkerEvent::AcceptFailed(m) => msg.len() >= m@.len() && msg.subrange(
                        msg.len() - m@.len(),
                        msg.len() as int,
                    ) == m@,
                    WorkerEvent::TradeNotSaved(m) => msg.len() >= m@.len() && msg.subrange(
                        msg.len() - m@.len(),
                        msg.len() as int,
                    ) == m@,
                    WorkerEvent::DeliveryFailed(m) => msg.len() >= m@.len() && msg.subrange(
                        msg.len() - m@.len(),
                        msg.len() as int,
                    ) == m@,
                    WorkerEvent::ChannelFailed(m) => msg.len() >= m@.len() && msg.subrange(
                        msg.len() - m@.len(),
                        msg.len() as int,
                    ) == m@,
                    WorkerEvent::HeartbeatFailed(m) => msg.len() >= m@.len() && msg.subrange(
                        msg.len() - m@.len(),
                        msg.len() as int,
                    ) == m@,
                    WorkerEvent::WineStopped(_) => true,
                    _ => false,
                },
                ActionModel::SetState(WorkerState::Error, Some(stored)) => exists|j: int|
                    0 <= j < reaction(e).0.len() && (reaction(e).0[j] == ActionModel::RecordError(
                        ErrorSeverity::Critical,
                        stored,
                    ) || reaction(e).0[j] == ActionModel::RecordError(ErrorSeverity::Error, stored)),
                _ => true,
            },
{
    let a = reaction(e).0;
    match e {
        WorkerEvent::BindFailed(m) => {
            let msg = "Failed to bind to address: "@ + m@;
            assert(msg.subrange(msg.len() - m@.len(), msg.len() as int) =~= m@);
            assert(a[1] == ActionModel::RecordError(ErrorSeverity::Critical, msg));
        },
        WorkerEvent::AcceptFailed(m) => {
            let msg = "Failed to accept connection: "@ + m@;
            assert(msg.subrange(msg.len() - m@.len(), msg.len() as int) =~= m@);
            assert(a[1] == ActionModel::RecordError(ErrorSeverity::Error, msg));
        },
        WorkerEvent::TradeNotSaved(m) => {
            let msg = "Failed to save trade to database: "@ + m@;
            assert(msg.subrange(msg.len() - m@.len(), msg.len() as int) =~= m@);
        },
        WorkerEvent::DeliveryFailed(m) => {
            let msg = "Failed to send trade: "@ + m@;
            assert(msg.subrange(msg.len() - m@.len(), msg.len() as int) =~= m@);
            assert(a[1] == ActionModel::RecordError(ErrorSeverity::Error, msg));
        },
        WorkerEvent::ChannelFailed(m) => {
            let msg = "Channel error: "@ + m@;
            assert(msg.subrange(msg.len() - m@.len(), msg.len() as int) =~= m@);
            assert(a[1] == ActionModel::RecordError(ErrorSeverity::Critical, msg));
        },
        WorkerEvent::HeartbeatFailed(m) => {
            let msg = "Heartbeat failed, connection lost: "@ + m@;
            assert(msg.subrange(msg.len() - m@.len(), msg.len() as int) =~= m@);
        },
        _ => {},
    }
}

/// The worker's stored state follows the events: it is marked active only
/// when its task starts, put in the error state exactly by the failures that
/// stop it from binding, accepting, delivering or reading trades, and stored
/// as inactive when the trade loop ends or its terminal's Wine process stops.
pub proof fn lemma_state_follows_events(e: WorkerEvent)
    ensures
        reaction(e).0.contains(ActionModel::MarkActive) <==> e is Started,
        (exists|k: int|
            0 <= k < reaction(e).0.len() && (#[trigger] reaction(e).0[k] matches ActionModel::SetState(
                WorkerState::Error,
                _,
            ))) <==> (e is BindFailed || e is AcceptFailed || e is DeliveryFailed
            || e is ChannelFailed),
        (exists|k: int|
            0 <= k < reaction(e).0.len() && (#[trigger] reaction(e).0[k] matches ActionModel::SetState(
                WorkerState::Inactive,
                _,
            ))) <==> (e is ChannelFailed || e is ShutdownRequested || e is WineStopped),
{
    let a = reaction(e).0;
    match e {
        WorkerEvent::Started => {
            assert(a[0] == ActionModel::MarkActive);
        },
        WorkerEvent::BindFailed(_) => {
            assert(a[0] matches ActionModel::SetState(WorkerState::Error, _));
        },
        WorkerEvent::AcceptFailed(_) => {
            assert(a[0] matches ActionModel::SetState(WorkerState::Error, _));
        },
        WorkerEvent::DeliveryFailed(_) => {
            assert(a[0] matches ActionModel::SetState(WorkerState::Error, _));
        },
        WorkerEvent::ChannelFailed(_) => {
            assert(a[0] matches ActionModel::SetState(WorkerState::Error, _));
            assert(a[2] matches ActionModel::SetState(WorkerState::Inactive, _));
        },
        WorkerEvent::ShutdownRequested => {
            assert(a[0] matches ActionModel::SetState(WorkerState::Inactive, _));
        },
        WorkerEvent::WineStopped(_) => {
            assert(a[0] matches ActionModel::SetState(WorkerState::Inactive, _));
        },
        _ => {},
    }
}

/// A delivered trade records the latency it was delivered with and is saved.
pub proof fn lemma_delivery_recorded(l: u64)
    ensures
        reaction(WorkerEvent::TradeDelivered(l)).0.contains(ActionModel::RecordLatency(l)),
        reaction(WorkerEvent::TradeDelivered(l)).0.contains(ActionModel::SaveTrade),
        !reaction(WorkerEvent::TradeDelivered(l)).1,
{
    let a = reaction(WorkerEvent::TradeDelivered(l)).0;
    assert(a[0] == ActionModel::RecordLatency(l));
    assert(a[1] == ActionModel::SaveTrade);
}

/// A terminal that was never seen running is never reported as closed: the
/// watch leaves its waiting phase only once the process was found.
pub proof fn lemma_no_stop_before_start(running: Option<bool>, shutdown: bool)
    ensures
        watch_step(WineWatch::Waiting, running, shutdown) != WatchOutcome::Stopped,
{
}

/// How sending one trade to the terminal ended.
#[derive(Debug, Clone)]
pub enum SendOutcome {
    /// No terminal was connected.
    NotConnected,
    /// Writing the trade failed with this error.
    WriteFailed(String),
    /// The terminal acknowledged the trade after this many microseconds.
    Acknowledged(u64),
    /// The acknowledgement channel closed before an answer came.
    AckChannelClosed,
    /// No acknowledgement came within five seconds.
    AckTimedOut,
}

/// What the worker does with the outcome of a send: the latency or the
/// error it reports, and whether it drops the connection and stores the
/// terminal as disconnected. The pending acknowledgement is removed in
/// every case.
#[derive(Debug)]
pub struct SendReport {
    pub result: Result<u64, String>,
    pub drop_connection: bool,
}

/// The report of each send outcome.
pub open spec fn send_report(o: SendOutcome) -> (Result<u64, Seq<char>>, bool) {
    match o {
        SendOutcome::NotConnected => (Err("No MT5 receiver connected"@), false),
        SendOutcome::WriteFailed(e) => (Err("Connection lost: "@ + e@), true),
        SendOutcome::Acknowledged(us) => (Ok(us), false),
        SendOutcome::AckChannelClosed => (Err("Acknowledgment channel closed"@), false),
        SendOutcome::AckTimedOut => (Err("Acknowledgment timeout"@), false),
    }
}

/// Reports the outcome of sending a trade.
pub fn report_send(o: &SendOutcome) -> (r: SendReport)
    ensures
        (match r.result {
            Ok(us) => Ok(us),
            Err(e) => Err(e@),
        }, r.drop_connection) == send_report(*o),
{
    match o {
        SendOutcome::NotConnected => SendReport {
            result: Err(owned("No MT5 receiver connected")),
            drop_connection: false,
        },
        SendOutcome::WriteFailed(e) => SendReport {
            result: Err(concat2("Connection lost: ", e.as_str())),
            drop_connection: true,
        },
        SendOutcome::Acknowledged(us) => SendReport { result: Ok(*us), drop_connection: false },
        SendOutcome::AckChannelClosed => SendReport {
            result: Err(owned("Acknowledgment channel closed")),
            drop_connection: false,
        },
        SendOutcome::AckTimedOut => SendReport {
            result: Err(owned("Acknowledgment timeout")),
            drop_connection: false,
        },
    }
}

} // verus!
