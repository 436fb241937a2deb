//! The commands the desktop interface sends: what each one answers, and the
//! order of the steps of updating a worker, which stops a running worker and
//! its terminal, saves the new settings and starts both again.
use vstd::prelude::*;
use crate::config::{SlaveConfig, config_error};
use crate::text::{owned, concat2, concat3, i64_to_decimal, signed_decimal};

verus! {

/// What a command answers on success.
#[derive(Debug, Clone)]
pub struct ApiResponse<T> {
    pub success: bool,
    pub data: T,
}

impl<T> ApiResponse<T> {
    /// A successful answer carrying `data`.
    pub fn ok(data: T) -> (r: Self)
        ensures
            r.success,
            r.data == data,
    {
        ApiResponse { success: true, data }
    }
}

/// The refusal of an invalid configuration.
pub open spec fn invalid_configuration(e: Seq<char>) -> Seq<char> {
    "Invalid configuration: "@ + e
}

/// Checks the settings a create or update command carries.
pub fn check_settings(config: &SlaveConfig) -> (r: Result<(), String>)
    ensures
        match config_error(config.name@, config.address@, config.multiplier_bits) {
            None => r is Ok,
            Some(e) => r is Err && r->Err_0@ == invalid_configuration(e),
        },
{
    match config.validate() {
        Ok(()) => Ok(()),
        Err(e) => Err(concat2("Invalid configuration: ", e.as_str())),
    }
}

/// The refusal when the instance manager could not be made.
pub fn manager_failed(e: &str) -> (m: String)
    ensures
        m@ == "Failed to initialize instance manager: "@ + e@,
{
    concat2("Failed to initialize instance manager: ", e)
}

/// What looking a worker up by id gave: its stored state, or nothing, or the
/// store's error.
pub open spec fn lookup_error(id: i64, found: Result<Option<Seq<char>>, Seq<char>>) -> Option<
    Seq<char>,
> {
    match found {
        Err(e) => Some("Failed to get worker: "@ + e),
        Ok(None) => Some("Worker with ID "@ + signed_decimal(id as int) + " not found"@),
        Ok(Some(_)) => None,
    }
}

/// The view of a lookup result.
pub open spec fn found_view(found: &Result<Option<String>, String>) -> Result<
    Option<Seq<char>>,
    Seq<char>,
> {
    match found {
        Ok(Some(s)) => Ok(Some(s@)),
        Ok(None) => Ok(None),
        Err(e) => Err(e@),
    }
}

/// The refusal, if any, after looking up the worker a command names.
pub fn worker_lookup(id: i64, found: &Result<Option<String>, String>) -> (r: Option<String>)
    ensures
        match lookup_error(id, found_view(found)) {
            None => r is None,
            Some(m) => r is Some && r->0@ == m,
        },
{
    match found {
        Err(e) => Some(concat2("Failed to get worker: ", e.as_str())),
        Ok(None) => Some(concat3("Worker with ID ", i64_to_decimal(id).as_str(), " not found")),
        Ok(Some(_)) => None,
    }
}

/// The answer to deleting the instance of worker `name`.
pub fn deleted_message(name: &str) -> (m: String)
    ensures
        m@ == "Instance '"@ + name@ + "' deleted successfully. Worker stopped."@,
{
    concat3("Instance '", name, "' deleted successfully. Worker stopped.")
}

/// The answer to starting the instance and worker `name`.
pub fn started_message(name: &str) -> (m: String)
    ensures
        m@ == "Instance '"@ + name@ + "' and worker started successfully"@,
{
    concat3("Instance '", name, "' and worker started successfully")
}

/// The refusal when the terminal started but the worker could not be.
pub fn start_worker_failed(e: &str) -> (m: String)
    ensures
        m@ == "MT5 instance started but failed to start worker: "@ + e@,
{
    concat2("MT5 instance started but failed to start worker: ", e)
}

/// The refusal when the stop command could not be sent.
pub fn stop_send_failed(e: &str) -> (m: String)
    ensures
        m@ == "Failed to send stop command: "@ + e@,
{
    concat2("Failed to send stop command: ", e)
}

/// The answer to stopping worker `name` and its terminal.
pub fn stopped_message(name: &str) -> (m: String)
    ensures
        m@ == "Worker '"@ + name@ + "' and MT5 instance stopped successfully"@,
{
    concat3("Worker '", name, "' and MT5 instance stopped successfully")
}

/// The answer to switching feature `key`.
pub fn feature_updated_message(key: &str, enabled: bool) -> (m: String)
    ensures
        m@ == "Feature '"@ + key@ + "' updated to "@ + (if enabled {
            "true"@
        } else {
            "false"@
        }),
{
    let mut m = concat3("Feature '", key, "' updated to ");
    if enabled {
        m.append("true");
    } else {
        m.append("false");
    }
    m
}

/// The answer to updating worker `name`.
pub open spec fn updated_message(name: Seq<char>, restarted: bool) -> Seq<char> {
    "Worker '"@ + name + "' updated successfully"@ + (if restarted {
        " and restarted"@
    } else {
        ""@
    })
}

/// Where the update of a worker stands: the step whose outcome it waits for.
#[derive(Debug, Clone, Copy, PartialEq, Eq, Structural)]
pub enum UpdateStage {
    /// Nothing done yet.
    Start,
    /// The worker is being looked up.
    FetchingWorker,
    /// The running worker is being told to stop.
    StoppingWorker,
    /// The worker is given time to shut down.
    Pausing,
    /// The worker's terminal is being stopped.
    StoppingInstance,
    /// The worker's port is being waited for.
    WaitingPort,
    /// The new settings are being saved.
    Saving,
    /// The worker's error state is being cleared.
    ClearingError,
    /// The updated worker is being looked up.
    FetchingUpdated,
    /// The worker's terminal is being started.
    StartingInstance,
    /// The worker is being told to start.
    StartingWorker,
    /// The update has answered.
    Finished,
}

/// The next thing the update needs done.
#[derive(Debug)]
pub enum UpdateAction {
    /// Look the worker up by id.
    FetchWorker(i64),
    /// Tell the worker with this id to stop.
    StopWorker(i64),
    /// Wait this many milliseconds.
    Pause(u64),
    /// Stop the worker's terminal.
    StopInstance,
    /// Try to bind the address up to `attempts` times, `interval_ms` apart,
    /// until it is free.
    WaitPortFree { address: String, attempts: u32, interval_ms: u64 },
    /// Save the new settings of worker `id`.
    SaveSettings(i64),
    /// Store the worker at this address as inactive without an error.
    ClearError(String),
    /// Start the worker's terminal (without force).
    StartInstance,
    /// Tell the worker with this id to start.
    StartWorker(i64),
    /// Answer the command.
    Finish(Result<String, String>),
    /// Nothing more to do.
    Idle,
}

/// An update action with its texts as characters.
pub enum UpdateActionModel {
    FetchWorker(i64),
    StopWorker(i64),
    Pause(u64),
    StopInstance,
    WaitPortFree(Seq<char>, u32, u64),
    SaveSettings(i64),
    ClearError(Seq<char>),
    StartInstance,
    StartWorker(i64),
    Finish(Result<Seq<char>, Seq<char>>),
    Idle,
}

/// The model of an update action.
pub open spec fn update_action_model(a: UpdateAction) -> UpdateActionModel {
    match a {
        UpdateAction::FetchWorker(id) => UpdateActionModel::FetchWorker(id),
        UpdateAction::StopWorker(id) => UpdateActionModel::StopWorker(id),
        UpdateAction::Pause(ms) => UpdateActionModel::Pause(ms),
        UpdateAction::StopInstance => UpdateActionModel::StopInstance,
        UpdateAction::WaitPortFree { address, attempts, interval_ms } =>
            UpdateActionModel::WaitPortFree(address@, attempts, interval_ms),
        UpdateAction::SaveSettings(id) => UpdateActionModel::SaveSettings(id),
        UpdateAction::ClearError(a) => UpdateActionModel::ClearError(a@),
        UpdateAction::StartInstance => UpdateActionModel::StartInstance,
        UpdateAction::StartWorker(id) => UpdateActionModel::StartWorker(id),
        UpdateAction::Finish(r) => UpdateActionModel::Finish(
            match r {
                Ok(m) => Ok(m@),
                Err(e) => Err(e@),
            },
        ),
        UpdateAction::Idle => UpdateActionModel::Idle,
    }
}

/// The update of one worker's settings, step by step.
#[derive(Debug, Clone)]
pub struct UpdateFlow {
    pub id: i64,
    /// The new settings.
    pub config: SlaveConfig,
    /// Whether the worker was running when the update began.
    pub was_active: bool,
    pub stage: UpdateStage,
}

/// What the update's state holds, as plain values.
pub struct UpdateModel {
    pub id: i64,
    pub name: Seq<char>,
    pub address: Seq<char>,
    pub multiplier_bits: u64,
    pub was_active: bool,
    pub stage: UpdateStage,
}

impl UpdateFlow {
    pub open spec fn model(&self) -> UpdateModel {
        UpdateModel {
            id: self.id,
            name: self.config.name@,
            address: self.config.address@,
            multiplier_bits: self.config.multiplier_bits,
            was_active: self.was_active,
            stage: self.stage,
        }
    }
}

/// The next stage and action of an update, given the outcome of the step
/// it waited for: `Ok(Some(state))` for a worker found in `state`,
/// `Ok(None)` for success without a worker, `Err` for a failure. Steps whose
/// failure only warns go on whatever their outcome.
pub open spec fn update_step(m: UpdateModel, outcome: Result<Option<Seq<char>>, Seq<char>>) -> (
    UpdateModel,
    UpdateActionModel,
) {
    let finish = |r: Result<Seq<char>, Seq<char>>|
        (UpdateModel { stage: UpdateStage::Finished, ..m }, UpdateActionModel::Finish(r));
    match m.stage {
        UpdateStage::Start => match config_error(m.name, m.address, m.multiplier_bits) {
            Some(e) => finish(Err(invalid_configuration(e))),
            None => (
                UpdateModel { stage: UpdateStage::FetchingWorker, ..m },
                UpdateActionModel::FetchWorker(m.id),
            ),
        },
        UpdateStage::FetchingWorker => match outcome {
            Err(e) => finish(Err("Failed to get worker: "@ + e)),
            Ok(None) => finish(
                Err("Worker with ID "@ + signed_decimal(m.id as int) + " not found"@),
            ),
            Ok(Some(state)) => if state == "active"@ {
                (
                    UpdateModel { stage: UpdateStage::StoppingWorker, was_active: true, ..m },
                    UpdateActionModel::StopWorker(m.id),
                )
            } else {
                (
                    UpdateModel { stage: UpdateStage::Saving, was_active: false, ..m },
                    UpdateActionModel::SaveSettings(m.id),
                )
            },
        },
        UpdateStage::StoppingWorker => (
            UpdateModel { stage: UpdateStage::Pausing, ..m },
            UpdateActionModel::Pause(1000),
        ),
        UpdateStage::Pausing => (
            UpdateModel { stage: UpdateStage::StoppingInstance, ..m },
            UpdateActionModel::StopInstance,
        ),
        UpdateStage::StoppingInstance => (
            UpdateModel { stage: UpdateStage::WaitingPort, ..m },
            UpdateActionModel::WaitPortFree(m.address, 20, 500),
        ),
        UpdateStage::WaitingPort => (
            UpdateModel { stage: UpdateStage::Saving, ..m },
            UpdateActionModel::SaveSettings(m.id),
        ),
        UpdateStage::Saving => match outcome {
            Err(e) => finish(Err("Failed to update worker: "@ + e)),
            Ok(_) => if m.was_active {
                (
                    UpdateModel { stage: UpdateStage::ClearingError, ..m },
                    UpdateActionModel::ClearError(m.address),
                )
            } else {
                finish(Ok(updated_message(m.name, false)))
            },
        },
        UpdateStage::ClearingError => (
            UpdateModel { stage: UpdateStage::FetchingUpdated, ..m },
            UpdateActionModel::FetchWorker(m.id),
        ),
        UpdateStage::FetchingUpdated => match outcome {
            Err(e) => finish(Err("Failed to get updated worker: "@ + e)),
            Ok(None) => finish(
                Err("Updated worker with ID "@ + signed_decimal(m.id as int) + " not found"@),
            ),
            Ok(Some(_)) => (
                UpdateModel { stage: UpdateStage::StartingInstance, ..m },
                UpdateActionModel::StartInstance,
            ),
        },
        UpdateStage::StartingInstance => (
            UpdateModel { stage: UpdateStage::StartingWorker, ..m },
            UpdateActionModel::StartWorker(m.id),
        ),
        UpdateStage::StartingWorker => match outcome {
            Err(e) => finish(Err("Worker updated but failed to restart: "@ + e)),
            Ok(_) => finish(Ok(updated_message(m.name, true))),
        },
        UpdateStage::Finished => (m, UpdateActionModel::Idle),
    }
}

/// The view of a step's outcome.
pub open spec fn outcome_view(o: &Result<Option<String>, String>) -> Result<
    Option<Seq<char>>,
    Seq<char>,
> {
    found_view(o)
}

fn copy_string(s: &String) -> (r: String)
    ensures
        r@ == s@,
{
    owned(s.as_str())
}

impl UpdateFlow {
    /// An update of worker `id` to the settings `config`, not yet begun.
    pub fn new(id: i64, config: SlaveConfig) -> (f: Self)
        ensures
            f.id == id,
            f.config == config,
            !f.was_active,
            f.stage == UpdateStage::Start,
    {
        UpdateFlow { id, config, was_active: false, stage: UpdateStage::Start }
    }

    /// Takes the outcome of the step the update waited for (anything at the
    /// start) and says what to do next.
    pub fn step(&mut self, outcome: &Result<Option<String>, String>) -> (a: UpdateAction)
        ensures
            (final(self).model(), update_action_model(a)) == update_step(
                old(self).model(),
                outcome_view(outcome),
            ),
            final(self).config == old(self).config,
    {
        let ghost m = self.model();
        match self.stage {
            UpdateStage::Start => match check_settings(&self.config) {
                Err(e) => {
                    self.stage = UpdateStage::Finished;
                    UpdateAction::Finish(Err(e))
                },
                Ok(()) => {
                    self.stage = UpdateStage::FetchingWorker;
                    UpdateAction::FetchWorker(self.id)
                },
            },
            UpdateStage::FetchingWorker => match outcome {
                Err(e) => {
                    self.stage = UpdateStage::Finished;
                    UpdateAction::Finish(Err(concat2("Failed to get worker: ", e.as_str())))
                },
                Ok(None) => {
                    self.stage = UpdateStage::Finished;
                    UpdateAction::Finish(
                        Err(
                            concat3(
                                "Worker with ID ",
                                i64_to_decimal(self.id).as_str(),
                                " not found",
                            ),
                        ),
                    )
                },
                Ok(Some(state)) => {
                    if crate::text::str_equals(state.as_str(), "active") {
                        self.was_active = true;
                        self.stage = UpdateStage::StoppingWorker;
                        UpdateAction::StopWorker(self.id)
                    } else {
                        self.was_active = false;
                        self.stage = UpdateStage::Saving;
                        UpdateAction::SaveSettings(self.id)
                    }
                },
            },
            UpdateStage::StoppingWorker => {
                self.stage = UpdateStage::Pausing;
                UpdateAction::Pause(1000)
            },
            UpdateStage::Pausing => {
                self.stage = UpdateStage::StoppingInstance;
                UpdateAction::StopInstance
            },
            UpdateStage::StoppingInstance => {
                self.stage = UpdateStage::WaitingPort;
                UpdateAction::WaitPortFree {
                    address: copy_string(&self.config.address),
                    attempts: 20,
                    interval_ms: 500,
                }
            },
            UpdateStage::WaitingPort => {
                self.stage = UpdateStage::Saving;
                UpdateAction::SaveSettings(self.id)
            },
            UpdateStage::Saving => match outcome {
                Err(e) => {
                    self.stage = UpdateStage::Finished;
                    UpdateAction::Finish(Err(concat2("Failed to update worker: ", e.as_str())))
                },
                Ok(_) => {
                    if self.was_active {
                        self.stage = UpdateStage::ClearingError;
                        UpdateAction::ClearError(copy_string(&self.config.address))
                    } else {
                        self.stage = UpdateStage::Finished;
                        let msg = concat3(
                            "Worker '",
                            self.config.name.as_str(),
                            "' updated successfully",
                        );
                        proof {
                            reveal_strlit("");
                        }
                        assert(msg@ =~= updated_message(m.name, false));
                        UpdateAction::Finish(Ok(msg))
                    }
                },
            },
            UpdateStage::ClearingError => {
                self.stage = UpdateStage::FetchingUpdated;
                UpdateAction::FetchWorker(self.id)
            },
            UpdateStage::FetchingUpdated => match outcome {
                Err(e) => {
                    self.stage = UpdateStage::Finished;
                    UpdateAction::Finish(
                        Err(concat2("Failed to get updated worker: ", e.as_str())),
                    )
                },
                Ok(None) => {
                    self.stage = UpdateStage::Finished;
                    UpdateAction::Finish(
                        Err(
                            concat3(
                                "Updated worker with ID ",
                                i64_to_decimal(self.id).as_str(),
                                " not found",
                            ),
                        ),
                    )
                },
                Ok(Some(_)) => {
                    self.stage = UpdateStage::StartingInstance;
                    UpdateAction::StartInstance
                },
            },
            UpdateStage::StartingInstance => {
                self.stage = UpdateStage::StartingWorker;
                UpdateAction::StartWorker(self.id)
            },
            UpdateStage::StartingWorker => match outcome {
                Err(e) => {
                    self.stage = UpdateStage::Finished;
                    UpdateAction::Finish(
                        Err(concat2("Worker updated but failed to restart: ", e.as_str())),
                    )
                },
                Ok(_) => {
                    self.stage = UpdateStage::Finished;
                    let msg = concat3(
                        "Worker '",
                        self.config.name.as_str(),
                        "' updated successfully and restarted",
                    );
                    proof {
                        reveal_strlit("' updated successfully and restarted");
                        reveal_strlit("' updated successfully");
                        reveal_strlit(" and restarted");
                    }
                    assert(msg@ =~= updated_message(m.name, true));
                    UpdateAction::Finish(Ok(msg))
                },
            },
            UpdateStage::Finished => UpdateAction::Idle,
        }
    }
}

/// An update answers success only as its last step: for a worker that was
/// running, right after the worker was told to start again, with the
/// answer saying it was restarted; for one that was not, right after the
/// settings were saved.
pub proof fn lemma_update_success_only_after_restart(
    m: UpdateModel,
    outcome: Result<Option<Seq<char>>, Seq<char>>,
    msg: Seq<char>,
)
    requires
        update_step(m, outcome).1 == UpdateActionModel::Finish(Ok(msg)),
    ensures
        m.stage == UpdateStage::StartingWorker && m.was_active ==> msg == updated_message(
            m.name,
            true,
        ),
        m.stage == UpdateStage::StartingWorker || (m.stage == UpdateStage::Saving
            && !m.was_active),
        m.stage == UpdateStage::Saving ==> msg == updated_message(m.name, false),
        update_step(m, outcome).0.stage == UpdateStage::Finished,
{
}

/// Whether the worker was running is settled by the first lookup and kept
/// by every later step.
pub proof fn lemma_update_keeps_activity(
    m: UpdateModel,
    outcome: Result<Option<Seq<char>>, Seq<char>>,
)
    requires
        m.stage != UpdateStage::FetchingWorker,
    ensures
        update_step(m, outcome).0.was_active == m.was_active,
        update_step(m, outcome).0.id == m.id,
        update_step(m, outcome).0.name == m.name,
        update_step(m, outcome).0.address == m.address,
{
}

} // verus!
