//! The decisions of the instance installers: how a failed step of creating
//! or starting a terminal instance is recorded and whether it stops the
//! operation, where Wine and its tools are, and how the wait for a terminal
//! installation ends.
use vstd::prelude::*;
use crate::status::ErrorSeverity;
use crate::text::{
    owned, concat2, concat3, to_chars, trim, trim_chars, from_chars, joined, join_path, decimal,
    u64_to_decimal, signed_decimal, i64_to_decimal,
};

verus! {

/// A step of creating or starting an instance that can fail.
#[derive(Debug, Clone, Copy, PartialEq, Eq, Structural)]
pub enum InstanceStep {
    /// Making sure Wine is installed (installing it when missing).
    EnsureWine,
    /// Creating the instance's Wine prefix.
    CreatePrefix,
    /// Running the terminal installer.
    InstallMt5,
    /// Copying the Expert Advisors into the terminal.
    CopyExperts,
    /// Copying the chart template with the worker's port into the terminal.
    CopyTemplate,
    /// Launching the terminal.
    Launch,
}

/// Whether an instance is being created or started.
#[derive(Debug, Clone, Copy, PartialEq, Eq, Structural)]
pub enum StepContext {
    Creating,
    Starting,
}

/// How a failed step is handled.
#[derive(Debug, Clone)]
pub struct StepFailure {
    /// The severity under which the failure is logged for the worker.
    pub severity: ErrorSeverity,
    /// The logged message.
    pub message: String,
    /// Whether the operation stops with the step's error.
    pub aborts: bool,
}

/// The message logged when `step` failed with `e`.
pub open spec fn step_message(ctx: StepContext, step: InstanceStep, e: Seq<char>) -> Seq<char> {
    match step {
        InstanceStep::EnsureWine => "Wine installation failed: "@ + e,
        InstanceStep::CreatePrefix => "Failed to create Wine prefix: "@ + e,
        InstanceStep::InstallMt5 => "MT5 installation failed: "@ + e,
        InstanceStep::CopyExperts => if ctx == StepContext::Creating {
            "Failed to copy Expert Advisors: "@ + e
                + ". You can manually copy them from ./src/mql5/Trading Rocket/"@
        } else {
            "Failed to copy Expert Advisors: "@ + e
        },
        InstanceStep::CopyTemplate => if ctx == StepContext::Creating {
            "Failed to copy Default.tpl template: "@ + e
                + ". You can manually copy it from ./src/mql5/Profiles/Templates/"@
        } else {
            "Failed to copy Default.tpl template: "@ + e
        },
        InstanceStep::Launch => "Failed to launch MT5: "@ + e,
    }
}

/// Whether a failure of `step` stops the operation: copying files only warns.
pub open spec fn step_aborts(step: InstanceStep) -> bool {
    step != InstanceStep::CopyExperts && step != InstanceStep::CopyTemplate
}

/// Only a failed copy lets the operation go on: Wine missing, a prefix not
/// made, the terminal not installed or not launched each stop it.
pub proof fn lemma_only_copies_continue(step: InstanceStep)
    ensures
        step == InstanceStep::EnsureWine ==> step_aborts(step),
        step == InstanceStep::CreatePrefix ==> step_aborts(step),
        step == InstanceStep::InstallMt5 ==> step_aborts(step),
        step == InstanceStep::Launch ==> step_aborts(step),
        step == InstanceStep::CopyExperts ==> !step_aborts(step),
        step == InstanceStep::CopyTemplate ==> !step_aborts(step),
{
}

/// The logged message always shows the step's error, after a description of
/// the step; in the message of a failed step that stops the operation the
/// error comes last.
pub proof fn lemma_message_shows_error(ctx: StepContext, step: InstanceStep, e: Seq<char>)
    ensures
        exists|k: int|
            0 < k && k + e.len() <= step_message(ctx, step, e).len() && #[trigger] step_message(
                ctx,
                step,
                e,
            ).subrange(k, k + e.len()) == e,
        step_aborts(step) || ctx == StepContext::Starting ==> step_message(ctx, step, e).len()
            > e.len() && step_message(ctx, step, e).subrange(
            step_message(ctx, step, e).len() - e.len(),
            step_message(ctx, step, e).len() as int,
        ) == e,
{
    let m = step_message(ctx, step, e);
    let head: Seq<char> = match step {
        InstanceStep::EnsureWine => "Wine installation failed: "@,
        InstanceStep::CreatePrefix => "Failed to create Wine prefix: "@,
        InstanceStep::InstallMt5 => "MT5 installation failed: "@,
        InstanceStep::CopyExperts => "Failed to copy Expert Advisors: "@,
        InstanceStep::CopyTemplate => "Failed to copy Default.tpl template: "@,
        InstanceStep::Launch => "Failed to launch MT5: "@,
    };
    reveal_strlit("Wine installation failed: ");
    reveal_strlit("Failed to create Wine prefix: ");
    reveal_strlit("MT5 installation failed: ");
    reveal_strlit("Failed to copy Expert Advisors: ");
    reveal_strlit("Failed to copy Default.tpl template: ");
    reveal_strlit("Failed to launch MT5: ");
    assert(head.len() > 0);
    let k = head.len() as int;
    assert(m.subrange(k, k + e.len()) =~= e);
    if step_aborts(step) || ctx == StepContext::Starting {
        assert(m =~= head + e);
        assert(m.subrange(m.len() - e.len(), m.len() as int) =~= e);
    }
}

/// How the failure of `step` with error `e` is handled: a warning for the
/// copy steps, which do not stop the operation; otherwise a critical error
/// that does.
pub fn step_failure(ctx: StepContext, step: InstanceStep, e: &str) -> (f: StepFailure)
    ensures
        f.message@ == step_message(ctx, step, e@),
        f.aborts == step_aborts(step),
        f.severity == (if step_aborts(step) {
            ErrorSeverity::Critical
        } else {
            ErrorSeverity::Warning
        }),
        step == InstanceStep::CopyExperts || step == InstanceStep::CopyTemplate ==> !f.aborts
            && f.severity == ErrorSeverity::Warning,
        step != InstanceStep::CopyExperts && step != InstanceStep::CopyTemplate ==> f.aborts
            && f.severity == ErrorSeverity::Critical,
{
    match step {
        InstanceStep::EnsureWine => StepFailure {
            severity: ErrorSeverity::Critical,
            message: concat2("Wine installation failed: ", e),
            aborts: true,
        },
        InstanceStep::CreatePrefix => StepFailure {
            severity: ErrorSeverity::Critical,
            message: concat2("Failed to create Wine prefix: ", e),
            aborts: true,
        },
        InstanceStep::InstallMt5 => StepFailure {
            severity: ErrorSeverity::Critical,
            message: concat2("MT5 installation failed: ", e),
            aborts: true,
        },
        InstanceStep::CopyExperts => {
            let message = if ctx == StepContext::Creating {
                concat3(
                    "Failed to copy Expert Advisors: ",
                    e,
                    ". You can manually copy them from ./src/mql5/Trading Rocket/",
                )
            } else {
                concat2("Failed to copy Expert Advisors: ", e)
            };
            StepFailure { severity: ErrorSeverity::Warning, message, aborts: false }
        },
        InstanceStep::CopyTemplate => {
            let message = if ctx == StepContext::Creating {
                concat3(
                    "Failed to copy Default.tpl template: ",
                    e,
                    ". You can manually copy it from ./src/mql5/Profiles/Templates/",
                )
            } else {
                concat2("Failed to copy Default.tpl template: ", e)
            };
            StepFailure { severity: ErrorSeverity::Warning, message, aborts: false }
        },
        InstanceStep::Launch => StepFailure {
            severity: ErrorSeverity::Critical,
            message: concat2("Failed to launch MT5: ", e),
            aborts: true,
        },
    }
}

/// The refusal of a deletion that was not confirmed with `force`.
pub fn deletion_refused() -> (m: String)
    ensures
        m@ == "Deletion cancelled - use force=true to confirm"@,
{
    owned("Deletion cancelled - use force=true to confirm")
}

/// Whether a deletion may go ahead: only when it is confirmed with `force`.
pub fn confirm_deletion(force: bool) -> (r: Result<(), String>)
    ensures
        force ==> r is Ok,
        !force ==> r is Err && r->Err_0@ == "Deletion cancelled - use force=true to confirm"@,
{
    if force {
        Ok(())
    } else {
        Err(deletion_refused())
    }
}

/// Where Wine is commonly installed on macOS, searched in this order.
pub open spec fn wine_candidates() -> Seq<Seq<char>> {
    seq!["/opt/homebrew/bin/wine"@, "/usr/local/bin/wine"@, "/opt/local/bin/wine"@]
}

/// The refusal when Wine cannot be found.
pub open spec fn wine_missing() -> Seq<char> {
    "Wine is not installed. Install it with: brew install --cask wine-stable"@
}

/// Position of the first `true`, or `v.len()` when there is none.
pub open spec fn first_true(v: Seq<bool>) -> nat
    decreases v.len(),
{
    if v.len() == 0 {
        0
    } else if v[0] {
        0
    } else {
        1 + first_true(v.drop_first())
    }
}

/// `first_true` is the position of the first `true`.
pub proof fn lemma_first_true_unique(v: Seq<bool>, k: int)
    requires
        0 <= k <= v.len(),
        k < v.len() ==> v[k],
        forall|j: int| 0 <= j < k ==> !v[j],
    ensures
        first_true(v) == k,
    decreases v.len(),
{
    if v.len() > 0 && k > 0 {
        let t = v.drop_first();
        assert forall|j: int| 0 <= j < k - 1 implies !t[j] by {
            assert(t[j] == v[j + 1]);
        }
        if k - 1 < t.len() {
            assert(t[k - 1] == v[k]);
        }
        lemma_first_true_unique(t, k - 1);
    }
}

/// Where Wine is: the path `which wine` printed (trimmed) when it found one,
/// else the first common location that exists.
pub open spec fn wine_path_spec(which_output: Option<Seq<char>>, exists: Seq<bool>) -> Result<
    Seq<char>,
    Seq<char>,
> {
    if which_output is Some && trim(which_output->0).len() > 0 {
        Ok(trim(which_output->0))
    } else if first_true(exists) < 3 {
        Ok(wine_candidates()[first_true(exists) as int])
    } else {
        Err(wine_missing())
    }
}

/// The text an optional string slice holds.
pub open spec fn str_opt_view(o: Option<&str>) -> Option<Seq<char>> {
    match o {
        Some(s) => Some(s@),
        None => None,
    }
}

/// Finds Wine from what `which wine` printed (`None` when it failed) and which
/// of the common locations exist (in the order of `wine_candidates`).
pub fn get_wine_path(which_output: Option<&str>, exists: &[bool]) -> (r: Result<String, String>)
    requires
        exists@.len() == 3,
    ensures
        match r {
            Ok(p) => wine_path_spec(str_opt_view(which_output), exists@) == Ok::<
                Seq<char>,
                Seq<char>,
            >(p@),
            Err(e) => wine_path_spec(str_opt_view(which_output), exists@) == Err::<
                Seq<char>,
                Seq<char>,
            >(e@),
        },
{
    let ghost w: Option<Seq<char>> = str_opt_view(which_output);
    match which_output {
        Some(out) => {
            let t = trim_chars(to_chars(out).as_slice());
            if t.len() > 0 {
                return Ok(from_chars(t.as_slice()));
            }
        },
        None => {},
    }
    assert(!(w is Some && trim(w->0).len() > 0));
    let mut i: usize = 0;
    while i < 3
        invariant
            exists@.len() == 3,
            i <= 3,
            w == str_opt_view(which_output),
            !(w is Some && trim(w->0).len() > 0),
            forall|j: int| 0 <= j < i ==> !exists@[j],
        decreases 3 - i,
    {
        if exists[i] {
            proof {
                lemma_first_true_unique(exists@, i as int);
            }
            proof {
                reveal_strlit("/opt/homebrew/bin/wine");
                reveal_strlit("/usr/local/bin/wine");
                reveal_strlit("/opt/local/bin/wine");
            }
            let p = if i == 0 {
                owned("/opt/homebrew/bin/wine")
            } else if i == 1 {
                owned("/usr/local/bin/wine")
            } else {
                owned("/opt/local/bin/wine")
            };
            assert(p@ == wine_candidates()[i as int]);
            assert(wine_path_spec(w, exists@) == Ok::<Seq<char>, Seq<char>>(p@));
            return Ok(p);
        }
        i += 1;
    }
    proof {
        lemma_first_true_unique(exists@, 3);
    }
    Err(owned("Wine is not installed. Install it with: brew install --cask wine-stable"))
}

/// The directory part of a path as `std::path::Path::parent` gives it (the
/// path without its final component; `None` for the root and the empty
/// path). Its rules on separators and `.` components are std's own, so its
/// result is named rather than restated.
pub uninterp spec fn path_parent(p: Seq<char>) -> Option<Seq<char>>;

/// `std::path::Path::parent` on a path given as text. Of its result only
/// that it is a function of the path is stated, through `path_parent`.
#[verifier::external_body]
pub(crate) fn parent_of(path: &str) -> (d: Option<String>)
    ensures
        crate::deps::opt_view(d) == path_parent(path@),
{
    match std::path::Path::new(path).parent() {
        Some(p) => Some(p.to_string_lossy().into_owned()),
        None => None,
    }
}

/// Where a Wine tool (`wineserver`, `winecfg`) is expected: beside `wine`,
/// when `wine`'s path has a directory part.
pub fn wine_tool_path(wine_path: &str, tool: &str) -> (p: Option<String>)
    ensures
        match path_parent(wine_path@) {
            Some(d) => p is Some && p->0@ == joined(d, tool@),
            None => p is None,
        },
{
    match parent_of(wine_path) {
        Some(d) => Some(join_path(d.as_str(), tool)),
        None => None,
    }
}

/// What finding a Wine tool in the directory `dir` of `wine` gives: the
/// refusal when there is no such directory; the tool's path when it exists
/// there; else the refusal that names the expected path as `shown`.
pub open spec fn tool_in_dir(
    dir: Option<Seq<char>>,
    tool: Seq<char>,
    exists: bool,
    shown: Seq<char>,
) -> Result<Seq<char>, Seq<char>> {
    match dir {
        None => Err("Could not determine Wine directory"@),
        Some(d) => if exists {
            Ok(joined(d, tool))
        } else {
            Err(tool + " not found at "@ + shown)
        },
    }
}

/// What finding a Wine tool beside `wine` gives: the error of finding Wine,
/// else the lookup in Wine's directory.
pub open spec fn wine_tool_lookup(
    wine: Result<Seq<char>, Seq<char>>,
    tool: Seq<char>,
    exists: bool,
    shown: Seq<char>,
) -> Result<Seq<char>, Seq<char>> {
    match wine {
        Err(e) => Err(e),
        Ok(w) => tool_in_dir(path_parent(w), tool, exists, shown),
    }
}

/// The view of a result of strings.
pub open spec fn result_view(r: &Result<String, String>) -> Result<Seq<char>, Seq<char>> {
    match r {
        Ok(s) => Ok(s@),
        Err(e) => Err(e@),
    }
}

/// Finds a Wine tool in the directory `dir` of `wine` (`None` when Wine's
/// path has none); `exists` tells whether the tool's expected path exists.
pub fn tool_in_wine_dir(dir: Option<&str>, tool: &str, exists: bool, shown: &str) -> (r: Result<
    String,
    String,
>)
    ensures
        result_view(&r) == tool_in_dir(str_opt_view(dir), tool@, exists, shown@),
{
    match dir {
        None => Err(owned("Could not determine Wine directory")),
        Some(d) => {
            if exists {
                Ok(join_path(d, tool))
            } else {
                Err(concat3(tool, " not found at ", shown))
            }
        },
    }
}

fn find_wine_tool(wine: &Result<String, String>, tool: &str, exists: bool, shown: &str) -> (r: Result<
    String,
    String,
>)
    ensures
        result_view(&r) == wine_tool_lookup(result_view(wine), tool@, exists, shown@),
{
    match wine {
        Err(e) => Err(owned(e.as_str())),
        Ok(w) => {
            let dir = parent_of(w.as_str());
            match dir {
                Some(d) => tool_in_wine_dir(Some(d.as_str()), tool, exists, shown),
                None => tool_in_wine_dir(None, tool, exists, shown),
            }
        },
    }
}

/// The wineserver beside `wine` (`wine` is what finding Wine gave);
/// `exists` tells whether the expected path (see `wine_tool_path`) exists,
/// `shown` is that path as the log prints it.
pub fn get_wineserver_path(wine: &Result<String, String>, exists: bool, shown: &str) -> (r: Result<
    String,
    String,
>)
    ensures
        result_view(&r) == wine_tool_lookup(result_view(wine), "wineserver"@, exists, shown@),
{
    find_wine_tool(wine, "wineserver", exists, shown)
}

/// The winecfg beside `wine`, as for `get_wineserver_path`.
pub fn get_winecfg_path(wine: &Result<String, String>, exists: bool, shown: &str) -> (r: Result<
    String,
    String,
>)
    ensures
        result_view(&r) == wine_tool_lookup(result_view(wine), "winecfg"@, exists, shown@),
{
    find_wine_tool(wine, "winecfg", exists, shown)
}

/// How long the installer may take before the wait gives up, in seconds.
pub const INSTALL_TIMEOUT_SECS: u64 = 300;

/// How a wait for the terminal installation continues.
#[derive(Debug, Clone)]
pub enum InstallWait {
    /// The terminal executable is there: the installation succeeded.
    Installed,
    /// Keep waiting (after a pause).
    Continue,
    /// The installation failed with this message; the installer is ended
    /// first when `kill` is set.
    Failed { kill: bool, message: String },
}

/// What the installer process was found doing.
#[derive(Debug, Clone)]
pub enum InstallerState {
    Running,
    /// It exited, with this exit code when there is one.
    Exited(Option<i32>),
    /// Its state could not be read (this error).
    Unknown(String),
}

/// The first look of a round of the wait: done when the executable is there,
/// failed once more than the timeout has passed, else the installer's state
/// decides (`None`).
pub fn install_wait_first(exe_exists: bool, elapsed_secs: u64, exe_shown: &str) -> (r: Option<
    InstallWait,
>)
    ensures
        exe_exists ==> r matches Some(InstallWait::Installed),
        !exe_exists && elapsed_secs > INSTALL_TIMEOUT_SECS ==> (r matches Some(
            InstallWait::Failed { kill, message },
        ) && kill && message@ == "MT5 installation timeout: executable not found at "@ + exe_shown@
            + " after "@ + decimal(INSTALL_TIMEOUT_SECS as nat) + " seconds"@),
        !exe_exists && elapsed_secs <= INSTALL_TIMEOUT_SECS ==> r is None,
{
    if exe_exists {
        return Some(InstallWait::Installed);
    }
    if elapsed_secs > INSTALL_TIMEOUT_SECS {
        let mut m = concat2("MT5 installation timeout: executable not found at ", exe_shown);
        m.append(" after ");
        m.append(u64_to_decimal(INSTALL_TIMEOUT_SECS).as_str());
        m.append(" seconds");
        return Some(InstallWait::Failed { kill: true, message: m });
    }
    None
}

/// The exit code as the failure message prints it.
pub open spec fn exit_code_text(code: Option<i32>) -> Seq<char> {
    match code {
        Some(c) => signed_decimal(c as int),
        None => "unknown"@,
    }
}

/// The second look of a round, from the installer's state and whether the
/// executable is there after it exited.
pub fn install_wait_second(state: &InstallerState, exe_exists_now: bool, exe_shown: &str) -> (r:
    InstallWait)
    ensures
        match *state {
            InstallerState::Running => r matches InstallWait::Continue,
            InstallerState::Exited(code) => if exe_exists_now {
                r matches InstallWait::Installed
            } else {
                (r matches InstallWait::Failed { kill, message } && !kill && message@
                    == "MT5 installation failed: installer exited with code "@ + exit_code_text(
                    code,
                ) + " but executable not found at "@ + exe_shown@)
            },
            InstallerState::Unknown(e) => (r matches InstallWait::Failed { kill, message } && kill
                && message@ == "Error checking installer process status: "@ + e@),
        },
{
    match state {
        InstallerState::Running => InstallWait::Continue,
        InstallerState::Exited(code) => {
            if exe_exists_now {
                InstallWait::Installed
            } else {
                let code_text = match code {
                    Some(c) => i64_to_decimal(*c as i64),
                    None => owned("unknown"),
                };
                let mut m = concat2(
                    "MT5 installation failed: installer exited with code ",
                    code_text.as_str(),
                );
                m.append(" but executable not found at ");
                m.append(exe_shown);
                InstallWait::Failed { kill: false, message: m }
            }
        },
        InstallerState::Unknown(e) => InstallWait::Failed {
            kill: true,
            message: concat2("Error checking installer process status: ", e.as_str()),
        },
    }
}

/// How a failed background installation of an instance is recorded: the
/// worker goes to the error state with this message, logged as critical.
pub fn background_install_failed(e: &str) -> (f: StepFailure)
    ensures
        f.message@ == "installation failed: "@ + e@,
        f.severity == ErrorSeverity::Critical,
        f.aborts,
{
    StepFailure {
        severity: ErrorSeverity::Critical,
        message: concat2("installation failed: ", e),
        aborts: true,
    }
}

} // verus!
