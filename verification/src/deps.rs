//! System dependencies of the copier (a package manager, and Wine where the
//! slave terminals run under it): how their state is decided, reported and
//! driven through installation.
use vstd::prelude::*;
use crate::status::{DependencyStatus, dependency_status_name, dependency_status_of};
use crate::text::{concat3, owned};

verus! {

/// The operating system the copier runs on.
#[derive(Debug, Clone, Copy, PartialEq, Eq, Structural)]
pub enum Os {
    MacOs,
    Windows,
    Linux,
}

/// The display name of an operating system.
pub open spec fn os_display_name(os: Os) -> Seq<char> {
    match os {
        Os::MacOs => "macOS"@,
        Os::Windows => "Windows"@,
        Os::Linux => "Linux"@,
    }
}

/// The package manager that provides the dependencies on an operating system.
pub open spec fn package_manager_of(os: Os) -> Seq<char> {
    match os {
        Os::MacOs => "Homebrew"@,
        Os::Windows => "Chocolatey"@,
        Os::Linux => "apt/yum"@,
    }
}

/// The display name of the operating system.
pub fn os_name(os: Os) -> (s: &'static str)
    ensures
        s@ == os_display_name(os),
{
    match os {
        Os::MacOs => "macOS",
        Os::Windows => "Windows",
        Os::Linux => "Linux",
    }
}

/// The name of the package manager used on `os`.
pub fn get_package_manager_name(os: Os) -> (s: &'static str)
    ensures
        s@ == package_manager_of(os),
{
    match os {
        Os::MacOs => "Homebrew",
        Os::Windows => "Chocolatey",
        Os::Linux => "apt/yum",
    }
}

/// Whether the package manager counts as installed: on macOS and Windows it is
/// what the probe for Homebrew or Chocolatey found; Linux systems are taken to
/// have apt or yum.
pub fn is_package_manager_installed(os: Os, probe_found: bool) -> (b: bool)
    ensures
        b == (os == Os::Linux || probe_found),
{
    match os {
        Os::Linux => true,
        _ => probe_found,
    }
}

/// Whether Wine counts as installed: only macOS probes for it; Windows does
/// not need it and Linux is taken to have it.
pub fn is_wine_installed(os: Os, probe_found: bool) -> (b: bool)
    ensures
        b == (os != Os::MacOs || probe_found),
{
    match os {
        Os::MacOs => probe_found,
        _ => true,
    }
}

/// What a probe result is recorded as: installed, or still pending.
pub open spec fn probed_status(installed: bool) -> DependencyStatus {
    if installed {
        DependencyStatus::Installed
    } else {
        DependencyStatus::Pending
    }
}

/// The statuses recorded after probing the package manager and Wine.
pub fn probed_statuses(pm_installed: bool, wine_installed: bool) -> (r: (
    DependencyStatus,
    DependencyStatus,
))
    ensures
        r.0 == probed_status(pm_installed),
        r.1 == probed_status(wine_installed),
{
    let pm = if pm_installed {
        DependencyStatus::Installed
    } else {
        DependencyStatus::Pending
    };
    let wine = if wine_installed {
        DependencyStatus::Installed
    } else {
        DependencyStatus::Pending
    };
    (pm, wine)
}

/// The dependency state reported to the user interface.
#[derive(Debug, Clone)]
pub struct DependencyStatusResponse {
    pub os_name: String,
    pub os_version: Option<String>,
    pub package_manager_name: String,
    pub package_manager_status: String,
    pub wine_status: String,
    pub error_message: Option<String>,
    pub all_installed: bool,
}

/// The stored row of dependency state (there is only ever one, with id 1).
#[derive(Debug, Clone)]
pub struct SystemDependenciesRecord {
    pub id: i64,
    pub os_name: String,
    pub os_version: Option<String>,
    pub package_manager_name: String,
    pub package_manager_status: String,
    pub wine_status: String,
    pub last_checked_at: String,
    pub error_message: Option<String>,
}

/// The view of an optional string.
pub open spec fn opt_view(o: Option<String>) -> Option<Seq<char>> {
    match o {
        Some(s) => Some(s@),
        None => None,
    }
}

/// A copy of an optional string.
pub fn clone_opt(o: &Option<String>) -> (r: Option<String>)
    ensures
        opt_view(r) == opt_view(*o),
{
    match o {
        Some(s) => Some(s.clone()),
        None => None,
    }
}

/// Builds the response for the given statuses.
pub fn dependency_response(
    os_name: &str,
    os_version: &Option<String>,
    package_manager_name: &str,
    pm_status: DependencyStatus,
    wine_status: DependencyStatus,
    error_message: &Option<String>,
    all_installed: bool,
) -> (r: DependencyStatusResponse)
    ensures
        r.os_name@ == os_name@,
        opt_view(r.os_version) == opt_view(*os_version),
        r.package_manager_name@ == package_manager_name@,
        r.package_manager_status@ == dependency_status_name(pm_status),
        r.wine_status@ == dependency_status_name(wine_status),
        opt_view(r.error_message) == opt_view(*error_message),
        r.all_installed == all_installed,
{
    DependencyStatusResponse {
        os_name: owned(os_name),
        os_version: clone_opt(os_version),
        package_manager_name: owned(package_manager_name),
        package_manager_status: owned(pm_status.as_str()),
        wine_status: owned(wine_status.as_str()),
        error_message: clone_opt(error_message),
        all_installed,
    }
}

/// The result of a dependency check: the statuses that the probes give, with
/// everything counted as installed only when both probes found their tool.
pub fn check_dependencies_response(
    os_name: &str,
    os_version: &Option<String>,
    package_manager_name: &str,
    pm_installed: bool,
    wine_installed: bool,
) -> (r: DependencyStatusResponse)
    ensures
        r.os_name@ == os_name@,
        opt_view(r.os_version) == opt_view(*os_version),
        r.package_manager_name@ == package_manager_name@,
        r.package_manager_status@ == dependency_status_name(probed_status(pm_installed)),
        r.wine_status@ == dependency_status_name(probed_status(wine_installed)),
        r.error_message is None,
        r.all_installed == (pm_installed && wine_installed),
{
    let (pm, wine) = probed_statuses(pm_installed, wine_installed);
    dependency_response(
        os_name,
        os_version,
        package_manager_name,
        pm,
        wine,
        &None,
        pm_installed && wine_installed,
    )
}

/// The response for a stored dependency row: its fields as stored, and
/// everything counted as installed when both stored statuses read as installed.
pub fn response_from_record(record: SystemDependenciesRecord) -> (r: DependencyStatusResponse)
    ensures
        r.os_name == record.os_name,
        r.os_version == record.os_version,
        r.package_manager_name == record.package_manager_name,
        r.package_manager_status == record.package_manager_status,
        r.wine_status == record.wine_status,
        r.error_message == record.error_message,
        r.all_installed == (dependency_status_of(record.package_manager_status@)
            == DependencyStatus::Installed && dependency_status_of(record.wine_status@)
            == DependencyStatus::Installed),
{
    let pm = DependencyStatus::from_str(record.package_manager_status.as_str());
    let wine = DependencyStatus::from_str(record.wine_status.as_str());
    let all_installed = pm == DependencyStatus::Installed && wine == DependencyStatus::Installed;
    DependencyStatusResponse {
        os_name: record.os_name,
        os_version: record.os_version,
        package_manager_name: record.package_manager_name,
        package_manager_status: record.package_manager_status,
        wine_status: record.wine_status,
        error_message: record.error_message,
        all_installed,
    }
}

/// The stored answer to "what is the dependency state": nothing when no check
/// has been recorded yet, else the response for the stored row.
pub fn get_dependency_status(record: Option<SystemDependenciesRecord>) -> (r: Option<
    DependencyStatusResponse,
>)
    ensures
        record is None ==> r is None,
        record is Some ==> r is Some && r->0.all_installed == (dependency_status_of(
            record->0.package_manager_status@,
        ) == DependencyStatus::Installed && dependency_status_of(record->0.wine_status@)
            == DependencyStatus::Installed) && r->0.os_name == record->0.os_name
            && r->0.package_manager_status == record->0.package_manager_status
            && r->0.wine_status == record->0.wine_status && r->0.error_message
            == record->0.error_message && r->0.os_version == record->0.os_version
            && r->0.package_manager_name == record->0.package_manager_name,
{
    match record {
        Some(rec) => Some(response_from_record(rec)),
        None => None,
    }
}


/// A tool the installation runs an installer for.
#[derive(Debug, Clone, Copy, PartialEq, Eq, Structural)]
pub enum InstallerKind {
    PackageManager,
    Wine,
}

/// Something the installation asks its driver to do.
#[derive(Debug, Clone)]
pub enum InstallAction {
    /// Store the dependency row with these statuses and error message.
    Record { package_manager: DependencyStatus, wine: DependencyStatus, error: Option<String> },
    /// Tell the user interface these statuses (not everything is installed yet).
    Announce { package_manager: DependencyStatus, wine: DependencyStatus },
}

/// What the driver does after carrying out the actions of a step.
#[derive(Debug, Clone)]
pub enum InstallNext {
    /// Run this installer, then hand its outcome to `install_dependencies_continue`.
    RunInstaller(InstallerKind),
    /// Probe everything again and report the result of that check.
    FinalCheck,
    /// Stop: report these statuses with this error (not everything is installed).
    Failed { package_manager: DependencyStatus, wine: DependencyStatus, error: String },
}

/// One step of the installation: actions to carry out, then what comes next.
#[derive(Debug, Clone)]
pub struct InstallStep {
    pub actions: Vec<InstallAction>,
    pub next: InstallNext,
}

/// An install action, with its message as characters.
pub enum ActionModel {
    Record(DependencyStatus, DependencyStatus, Option<Seq<char>>),
    Announce(DependencyStatus, DependencyStatus),
}

/// The model of an install action.
pub open spec fn action_model(a: InstallAction) -> ActionModel {
    match a {
        InstallAction::Record { package_manager, wine, error } => ActionModel::Record(
            package_manager,
            wine,
            opt_view(error),
        ),
        InstallAction::Announce { package_manager, wine } => ActionModel::Announce(
            package_manager,
            wine,
        ),
    }
}

/// What comes after a step, with its message as characters.
pub enum NextModel {
    RunInstaller(InstallerKind),
    FinalCheck,
    Failed(DependencyStatus, DependencyStatus, Seq<char>),
}

/// The model of what comes after a step.
pub open spec fn next_model(n: InstallNext) -> NextModel {
    match n {
        InstallNext::RunInstaller(k) => NextModel::RunInstaller(k),
        InstallNext::FinalCheck => NextModel::FinalCheck,
        InstallNext::Failed { package_manager, wine, error } => NextModel::Failed(
            package_manager,
            wine,
            error@,
        ),
    }
}

/// The model of a step.
pub open spec fn step_model(s: InstallStep) -> (Seq<ActionModel>, NextModel) {
    (s.actions@.map_values(|a: InstallAction| action_model(a)), next_model(s.next))
}

/// The Wine stage once the package manager is installed: macOS and Linux need
/// Wine; macOS runs its installer, Linux records it as installed directly.
pub open spec fn wine_stage(os: Os, wine_installed: bool) -> (Seq<ActionModel>, NextModel) {
    if (os == Os::MacOs || os == Os::Linux) && !wine_installed {
        let begin = seq![
            ActionModel::Record(DependencyStatus::Installed, DependencyStatus::Installing, None),
            ActionModel::Announce(DependencyStatus::Installed, DependencyStatus::Installing),
        ];
        if os == Os::MacOs {
            (begin, NextModel::RunInstaller(InstallerKind::Wine))
        } else {
            (
                begin.push(
                    ActionModel::Record(
                        DependencyStatus::Installed,
                        DependencyStatus::Installed,
                        None,
                    ),
                ),
                NextModel::FinalCheck,
            )
        }
    } else {
        (Seq::empty(), NextModel::FinalCheck)
    }
}

/// The actions once the package manager has been installed (or needed no
/// installer), followed by the Wine stage.
pub open spec fn after_package_manager(os: Os, wine_installed: bool) -> (
    Seq<ActionModel>,
    NextModel,
) {
    let done = seq![
        ActionModel::Record(DependencyStatus::Installed, DependencyStatus::Pending, None),
        ActionModel::Announce(DependencyStatus::Installed, DependencyStatus::Pending),
    ];
    (done + wine_stage(os, wine_installed).0, wine_stage(os, wine_installed).1)
}

/// The first step of an installation, from what the probes found: a missing
/// package manager is marked installing and its installer run (Linux has none
/// to run); otherwise the Wine stage begins.
pub open spec fn install_start(os: Os, pm_installed: bool, wine_installed: bool) -> (
    Seq<ActionModel>,
    NextModel,
) {
    if !pm_installed {
        let begin = seq![
            ActionModel::Record(DependencyStatus::Installing, DependencyStatus::Pending, None),
            ActionModel::Announce(DependencyStatus::Installing, DependencyStatus::Pending),
        ];
        if os == Os::Linux {
            (
                begin + after_package_manager(os, wine_installed).0,
                after_package_manager(os, wine_installed).1,
            )
        } else {
            (begin, NextModel::RunInstaller(InstallerKind::PackageManager))
        }
    } else {
        wine_stage(os, wine_installed)
    }
}

/// The step after an installer finished: a failure is recorded and reported
/// with its message; a package manager that installed leads to the Wine stage;
/// Wine that installed leads to the final check.
pub open spec fn install_after(
    os: Os,
    kind: InstallerKind,
    wine_installed: bool,
    failure: Option<Seq<char>>,
) -> (Seq<ActionModel>, NextModel) {
    match failure {
        Some(e) => {
            let msg = if kind == InstallerKind::PackageManager {
                "Failed to install "@ + package_manager_of(os) + ": "@ + e
            } else {
                "Failed to install Wine: "@ + e
            };
            let (pm, wine) = if kind == InstallerKind::PackageManager {
                (DependencyStatus::Error, DependencyStatus::Pending)
            } else {
                (DependencyStatus::Installed, DependencyStatus::Error)
            };
            (seq![ActionModel::Record(pm, wine, Some(msg))], NextModel::Failed(pm, wine, msg))
        },
        None => {
            if kind == InstallerKind::PackageManager {
                after_package_manager(os, wine_installed)
            } else {
                (
                    seq![
                        ActionModel::Record(
                            DependencyStatus::Installed,
                            DependencyStatus::Installed,
                            None,
                        ),
                    ],
                    NextModel::FinalCheck,
                )
            }
        },
    }
}

fn record(pm: DependencyStatus, wine: DependencyStatus) -> (a: InstallAction)
    ensures
        action_model(a) == ActionModel::Record(pm, wine, None),
{
    InstallAction::Record { package_manager: pm, wine, error: None }
}

fn announce(pm: DependencyStatus, wine: DependencyStatus) -> (a: InstallAction)
    ensures
        action_model(a) == ActionModel::Announce(pm, wine),
{
    InstallAction::Announce { package_manager: pm, wine }
}

fn push_action(v: &mut Vec<InstallAction>, a: InstallAction)
    ensures
        final(v)@.map_values(|x: InstallAction| action_model(x)) == old(v)@.map_values(
            |x: InstallAction| action_model(x),
        ).push(action_model(a)),
{
    v.push(a);
    assert(v@.map_values(|x: InstallAction| action_model(x)) =~= old(v)@.map_values(
        |x: InstallAction| action_model(x),
    ).push(action_model(a)));
}

fn append_wine_stage(os: Os, wine_installed: bool, actions: &mut Vec<InstallAction>) -> (n: InstallNext)
    ensures
        final(actions)@.map_values(|x: InstallAction| action_model(x)) == old(actions)@.map_values(
            |x: InstallAction| action_model(x),
        ) + wine_stage(os, wine_installed).0,
        next_model(n) == wine_stage(os, wine_installed).1,
{
    let ghost before = actions@.map_values(|x: InstallAction| action_model(x));
    if (os == Os::MacOs || os == Os::Linux) && !wine_installed {
        push_action(actions, record(DependencyStatus::Installed, DependencyStatus::Installing));
        push_action(actions, announce(DependencyStatus::Installed, DependencyStatus::Installing));
        if os == Os::MacOs {
            assert(actions@.map_values(|x: InstallAction| action_model(x)) =~= before
                + wine_stage(os, wine_installed).0);
            InstallNext::RunInstaller(InstallerKind::Wine)
        } else {
            push_action(actions, record(DependencyStatus::Installed, DependencyStatus::Installed));
            assert(actions@.map_values(|x: InstallAction| action_model(x)) =~= before
                + wine_stage(os, wine_installed).0);
            InstallNext::FinalCheck
        }
    } else {
        assert(before + wine_stage(os, wine_installed).0 =~= before);
        InstallNext::FinalCheck
    }
}

fn append_after_package_manager(
    os: Os,
    wine_installed: bool,
    actions: &mut Vec<InstallAction>,
) -> (n: InstallNext)
    ensures
        final(actions)@.map_values(|x: InstallAction| action_model(x)) == old(actions)@.map_values(
            |x: InstallAction| action_model(x),
        ) + after_package_manager(os, wine_installed).0,
        next_model(n) == after_package_manager(os, wine_installed).1,
{
    let ghost before = actions@.map_values(|x: InstallAction| action_model(x));
    push_action(actions, record(DependencyStatus::Installed, DependencyStatus::Pending));
    push_action(actions, announce(DependencyStatus::Installed, DependencyStatus::Pending));
    let ghost mid = actions@.map_values(|x: InstallAction| action_model(x));
    let n = append_wine_stage(os, wine_installed, actions);
    assert(actions@.map_values(|x: InstallAction| action_model(x)) =~= before
        + after_package_manager(os, wine_installed).0);
    n
}

/// The first step of installing the missing dependencies, from what the
/// probes found.
pub fn install_dependencies_start(os: Os, pm_installed: bool, wine_installed: bool) -> (r:
    InstallStep)
    ensures
        step_model(r) == install_start(os, pm_installed, wine_installed),
{
    let mut actions: Vec<InstallAction> = Vec::new();
    let ghost empty = actions@.map_values(|x: InstallAction| action_model(x));
    assert(empty =~= Seq::<ActionModel>::empty());
    if !pm_installed {
        push_action(&mut actions, record(DependencyStatus::Installing, DependencyStatus::Pending));
        push_action(&mut actions, announce(DependencyStatus::Installing, DependencyStatus::Pending));
        if os == Os::Linux {
            let next = append_after_package_manager(os, wine_installed, &mut actions);
            let r = InstallStep { actions, next };
            assert(step_model(r).0 =~= install_start(os, pm_installed, wine_installed).0);
            r
        } else {
            let r = InstallStep {
                actions,
                next: InstallNext::RunInstaller(InstallerKind::PackageManager),
            };
            assert(step_model(r).0 =~= install_start(os, pm_installed, wine_installed).0);
            r
        }
    } else {
        let next = append_wine_stage(os, wine_installed, &mut actions);
        let r = InstallStep { actions, next };
        assert(step_model(r).0 =~= install_start(os, pm_installed, wine_installed).0);
        r
    }
}

/// The step after an installer finished, from its outcome (`Err` holds the
/// installer's error message).
pub fn install_dependencies_continue(
    os: Os,
    kind: InstallerKind,
    wine_installed: bool,
    outcome: Result<(), String>,
) -> (r: InstallStep)
    ensures
        step_model(r) == install_after(
            os,
            kind,
            wine_installed,
            match outcome {
                Ok(_) => None,
                Err(e) => Some(e@),
            },
        ),
{
    let mut actions: Vec<InstallAction> = Vec::new();
    let ghost empty = actions@.map_values(|x: InstallAction| action_model(x));
    assert(empty =~= Seq::<ActionModel>::empty());
    match outcome {
        Err(e) => {
            let (msg, pm, wine) = if kind == InstallerKind::PackageManager {
                (
                    concat3("Failed to install ", get_package_manager_name(os), ": "),
                    DependencyStatus::Error,
                    DependencyStatus::Pending,
                )
            } else {
                (owned("Failed to install Wine: "), DependencyStatus::Installed, DependencyStatus::Error)
            };
            let mut msg = msg;
            msg.append(e.as_str());
            let msg2 = msg.clone();
            push_action(
                &mut actions,
                InstallAction::Record { package_manager: pm, wine, error: Some(msg) },
            );
            let r = InstallStep {
                actions,
                next: InstallNext::Failed { package_manager: pm, wine, error: msg2 },
            };
            assert(step_model(r).0 =~= install_after(os, kind, wine_installed, Some(e@)).0);
            r
        },
        Ok(()) => {
            if kind == InstallerKind::PackageManager {
                let next = append_after_package_manager(os, wine_installed, &mut actions);
                let r = InstallStep { actions, next };
                assert(step_model(r).0 =~= install_after(os, kind, wine_installed, None).0);
                r
            } else {
                push_action(
                    &mut actions,
                    record(DependencyStatus::Installed, DependencyStatus::Installed),
                );
                let r = InstallStep { actions, next: InstallNext::FinalCheck };
                assert(step_model(r).0 =~= install_after(os, kind, wine_installed, None).0);
                r
            }
        },
    }
}

/// Wine is never installed before the package manager: an installation
/// that finds the package manager missing runs its installer first (or, on
/// Linux, records it), never the Wine installer; and a failed package
/// manager installation goes no further.
pub proof fn lemma_package_manager_first(os: Os, wine_installed: bool, e: Seq<char>)
    ensures
        os != Os::Linux ==> install_start(os, false, wine_installed).1 == NextModel::RunInstaller(
            InstallerKind::PackageManager,
        ),
        install_after(os, InstallerKind::PackageManager, wine_installed, Some(e)).1 is Failed,
        install_after(os, InstallerKind::Wine, wine_installed, Some(e)).1 is Failed,
{
}

/// A finished Wine installation always ends with the final check, and one
/// that failed is reported with Wine in the error state.
pub proof fn lemma_wine_outcome(os: Os, wine_installed: bool, e: Seq<char>)
    ensures
        install_after(os, InstallerKind::Wine, wine_installed, None).1 == NextModel::FinalCheck,
        install_after(os, InstallerKind::Wine, wine_installed, Some(e)).1 == NextModel::Failed(
            DependencyStatus::Installed,
            DependencyStatus::Error,
            "Failed to install Wine: "@ + e,
        ),
{
}

/// On macOS missing Wine is always installed: with Homebrew present its
/// installer runs at once, and otherwise right after Homebrew's.
pub proof fn lemma_wine_reached()
    ensures
        install_start(Os::MacOs, true, false).1 == NextModel::RunInstaller(InstallerKind::Wine),
        install_start(Os::MacOs, false, false).1 == NextModel::RunInstaller(
            InstallerKind::PackageManager,
        ),
        install_after(Os::MacOs, InstallerKind::PackageManager, false, None).1
            == NextModel::RunInstaller(InstallerKind::Wine),
{
}

/// Whether a step ends with Wine stored as installed (with no error).
pub open spec fn ends_wine_installed(step: (Seq<ActionModel>, NextModel)) -> bool {
    step.0.len() > 0 && (step.0.last() matches ActionModel::Record(_, DependencyStatus::Installed, None))
}

/// When Wine was missing on macOS or Linux, the final check comes only after
/// a step that stored Wine as installed, whatever the package manager's
/// state.
pub proof fn lemma_final_check_after_wine(os: Os, pm_installed: bool)
    requires
        os == Os::MacOs || os == Os::Linux,
    ensures
        install_start(os, pm_installed, false).1 == NextModel::FinalCheck ==> ends_wine_installed(
            install_start(os, pm_installed, false),
        ),
        install_after(os, InstallerKind::PackageManager, false, None).1 == NextModel::FinalCheck
            ==> ends_wine_installed(
            install_after(os, InstallerKind::PackageManager, false, None),
        ),
        install_after(os, InstallerKind::Wine, false, None).1 == NextModel::FinalCheck
            ==> ends_wine_installed(install_after(os, InstallerKind::Wine, false, None)),
{
}

/// With everything installed there is nothing to do: no action, straight to
/// the final check. Windows never runs a Wine installer.
pub proof fn lemma_nothing_to_install(os: Os, pm_installed: bool, wine_installed: bool)
    ensures
        install_start(os, true, true) == (Seq::<ActionModel>::empty(), NextModel::FinalCheck),
        install_start(Os::Windows, pm_installed, wine_installed).1 != NextModel::RunInstaller(
            InstallerKind::Wine,
        ),
        install_after(Os::Windows, InstallerKind::PackageManager, wine_installed, None).1
            != NextModel::RunInstaller(InstallerKind::Wine),
{
}

/// Whether an action shows Wine past pending only once the package manager
/// is installed.
pub open spec fn wine_after_package_manager(a: ActionModel) -> bool {
    match a {
        ActionModel::Record(pm, wine, _) => wine != DependencyStatus::Pending ==> pm
            == DependencyStatus::Installed,
        ActionModel::Announce(pm, wine) => wine != DependencyStatus::Pending ==> pm
            == DependencyStatus::Installed,
    }
}

/// No step stores or announces Wine as installing, installed or failed
/// before the package manager is installed.
pub proof fn lemma_statuses_in_order(
    os: Os,
    pm_installed: bool,
    wine_installed: bool,
    kind: InstallerKind,
    failure: Option<Seq<char>>,
)
    ensures
        forall|k: int|
            0 <= k < install_start(os, pm_installed, wine_installed).0.len()
                ==> wine_after_package_manager(
                #[trigger] install_start(os, pm_installed, wine_installed).0[k],
            ),
        forall|k: int|
            0 <= k < install_after(os, kind, wine_installed, failure).0.len()
                ==> wine_after_package_manager(
                #[trigger] install_after(os, kind, wine_installed, failure).0[k],
            ),
{
    let ws = wine_stage(os, wine_installed).0;
    let ap = after_package_manager(os, wine_installed).0;
    assert forall|k: int| 0 <= k < ap.len() implies wine_after_package_manager(#[trigger] ap[k]) by {
        if k >= 2 {
            assert(ap[k] == ws[k - 2]);
        }
    }
    let st = install_start(os, pm_installed, wine_installed).0;
    if !pm_installed && os == Os::Linux {
        assert forall|k: int| 0 <= k < st.len() implies wine_after_package_manager(#[trigger] st[k]) by {
            if k >= 2 {
                assert(st[k] == ap[k - 2]);
            }
        }
    }
}

/// Whether a step's actions store the statuses before what comes next: an
/// installer about to run is stored as installing, and a failure is stored,
/// with its message, before it is reported.
pub open spec fn stored_before_next(step: (Seq<ActionModel>, NextModel)) -> bool {
    match step.1 {
        NextModel::RunInstaller(InstallerKind::PackageManager) => step.0.contains(
            ActionModel::Record(DependencyStatus::Installing, DependencyStatus::Pending, None),
        ),
        NextModel::RunInstaller(InstallerKind::Wine) => step.0.contains(
            ActionModel::Record(DependencyStatus::Installed, DependencyStatus::Installing, None),
        ),
        NextModel::Failed(pm, wine, msg) => step.0.contains(ActionModel::Record(pm, wine, Some(msg))),
        NextModel::FinalCheck => true,
    }
}

/// Every step stores what it is about to do before the driver does it.
pub proof fn lemma_stored_before_next(
    os: Os,
    pm_installed: bool,
    wine_installed: bool,
    kind: InstallerKind,
    failure: Option<Seq<char>>,
)
    ensures
        stored_before_next(install_start(os, pm_installed, wine_installed)),
        stored_before_next(install_after(os, kind, wine_installed, failure)),
{
    let st = install_start(os, pm_installed, wine_installed);
    let ws = wine_stage(os, wine_installed);
    if ws.1 == NextModel::RunInstaller(InstallerKind::Wine) {
        assert(ws.0[0] == ActionModel::Record(
            DependencyStatus::Installed,
            DependencyStatus::Installing,
            None,
        ));
        let ap = after_package_manager(os, wine_installed);
        assert(ap.0[2] == ws.0[0]);
    }
    if !pm_installed && os != Os::Linux {
        assert(st.0[0] == ActionModel::Record(
            DependencyStatus::Installing,
            DependencyStatus::Pending,
            None,
        ));
    }
    let af = install_after(os, kind, wine_installed, failure);
    if failure is Some {
        assert(af.0[0] == ActionModel::Record(
            af.1->Failed_0,
            af.1->Failed_1,
            Some(af.1->Failed_2),
        ));
    }
}

} // verus!
