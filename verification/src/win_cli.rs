//! The Windows instance command line: its commands, and what each one
//! decides and prints from the instance list.
use vstd::prelude::*;
use crate::deps::Os;
use crate::registry::name_index;
use crate::win_config::{Config, Instance, names};
use crate::managers::{instance_dir_name, missing_variable};
use crate::text::{owned, concat2, concat3, join_path, joined, u64_to_decimal, decimal};
use crate::experts::{join_windows, joined_windows};

verus! {

/// A command of the Windows instance manager.
#[derive(Debug, Clone)]
pub enum Commands {
    /// Create an instance, in `path` or in the default place.
    Create { name: String, path: Option<String> },
    /// Delete an instance; without `force` only ask for confirmation.
    Delete { name: String, force: bool },
    /// Start the named instance, or all of them.
    Start { name: Option<String> },
    /// List the instances.
    List,
}

/// `s` padded with spaces on the right to `width` characters (as `{:<width}`
/// formats it); longer texts are left as they are.
pub open spec fn padded(s: Seq<char>, width: nat) -> Seq<char> {
    if s.len() >= width {
        s
    } else {
        s + Seq::new((width - s.len()) as nat, |i: int| ' ')
    }
}

/// Pads a text with spaces on the right.
pub fn pad_right(s: &str, width: usize) -> (r: String)
    ensures
        r@ == padded(s@, width as nat),
{
    let mut r = owned(s);
    let n = crate::text::to_chars(s).len();
    if n >= width {
        return r;
    }
    let mut k: usize = n;
    while k < width
        invariant
            n <= k <= width,
            n == s@.len(),
            r@ == s@ + Seq::new((k - n) as nat, |i: int| ' '),
        decreases width - k,
    {
        crate::text::push_char(&mut r, ' ');
        assert(r@ =~= s@ + Seq::new((k + 1 - n) as nat, |i: int| ' '));
        k += 1;
    }
    r
}

/// One row of the instance table.
pub open spec fn table_row(name: Seq<char>, path: Seq<char>, status: Seq<char>) -> Seq<char> {
    padded(name, 20) + seq![' '] + padded(path, 50) + seq![' '] + padded(status, 12)
}

/// An instance's status in the table.
pub open spec fn install_status(installed: bool) -> Seq<char> {
    if installed {
        "Installed"@
    } else {
        "Not installed"@
    }
}

/// The rows of the table, one per instance (`installed[i]` tells whether the
/// terminal of instance `i` is installed).
pub open spec fn table_rows(instances: Seq<Instance>, installed: Seq<bool>) -> Seq<Seq<char>> {
    Seq::new(
        instances.len(),
        |i: int| table_row(instances[i].name@, instances[i].path@, install_status(installed[i])),
    )
}

/// What `list` prints, line by line.
pub open spec fn list_output(instances: Seq<Instance>, installed: Seq<bool>) -> Seq<Seq<char>> {
    if instances.len() == 0 {
        seq![
            "No instances configured."@,
            ""@,
            "Create a new instance with:"@,
            "  mt5-manager create <name>"@,
        ]
    } else {
        seq![
            "MT5 Instances:"@,
            ""@,
            table_row("NAME"@, "PATH"@, "STATUS"@),
            Seq::new(82, |i: int| '-'),
        ] + table_rows(instances, installed) + seq![
            ""@,
            "Total: "@ + decimal(instances.len()) + " instance(s)"@,
        ]
    }
}

fn row(name: &str, path: &str, status: &str) -> (r: String)
    ensures
        r@ == table_row(name@, path@, status@),
{
    let mut r = pad_right(name, 20);
    crate::text::push_char(&mut r, ' ');
    r.append(pad_right(path, 50).as_str());
    crate::text::push_char(&mut r, ' ');
    r.append(pad_right(status, 12).as_str());
    r
}

fn push_line(v: &mut Vec<String>, s: String)
    ensures
        final(v).deep_view() == old(v).deep_view().push(s@),
{
    let ghost before = v.deep_view();
    let ghost sv = s@;
    v.push(s);
    assert(v.deep_view() =~= before.push(sv));
}

/// The lines `list` prints.
pub fn list_lines(config: &Config, installed: &[bool]) -> (v: Vec<String>)
    requires
        installed@.len() == config.instances@.len(),
    ensures
        v.deep_view() == list_output(config.instances@, installed@),
{
    let mut v: Vec<String> = Vec::new();
    proof {
        reveal_strlit("No instances configured.");
        reveal_strlit("");
        reveal_strlit("Create a new instance with:");
        reveal_strlit("  mt5-manager create <name>");
        reveal_strlit("MT5 Instances:");
        reveal_strlit("NAME");
        reveal_strlit("PATH");
        reveal_strlit("STATUS");
        reveal_strlit("Installed");
        reveal_strlit("Not installed");
    }
    if config.instances.len() == 0 {
        push_line(&mut v, owned("No instances configured."));
        push_line(&mut v, owned(""));
        push_line(&mut v, owned("Create a new instance with:"));
        push_line(&mut v, owned("  mt5-manager create <name>"));
        assert(v.deep_view() =~= list_output(config.instances@, installed@));
        return v;
    }
    push_line(&mut v, owned("MT5 Instances:"));
    push_line(&mut v, owned(""));
    push_line(&mut v, row("NAME", "PATH", "STATUS"));
    let mut dashes = owned("");
    let mut k: usize = 0;
    while k < 82
        invariant
            k <= 82,
            dashes@ == Seq::new(k as nat, |i: int| '-'),
        decreases 82 - k,
    {
        crate::text::push_char(&mut dashes, '-');
        assert(dashes@ =~= Seq::new((k + 1) as nat, |i: int| '-'));
        k += 1;
    }
    push_line(&mut v, dashes);
    let ghost head = v.deep_view();
    let ghost rows = table_rows(config.instances@, installed@);
    let mut i: usize = 0;
    while i < config.instances.len()
        invariant
            i <= config.instances.len(),
            installed@.len() == config.instances@.len(),
            rows == table_rows(config.instances@, installed@),
            v.deep_view() == head + rows.take(i as int),
        decreases config.instances.len() - i,
    {
        let inst = &config.instances[i];
        let status = if installed[i] {
            "Installed"
        } else {
            "Not installed"
        };
        let r = row(inst.name.as_str(), inst.path.as_str(), status);
        push_line(&mut v, r);
        assert(rows.take(i + 1) =~= rows.take(i as int).push(rows[i as int]));
        assert(v.deep_view() =~= head + rows.take(i + 1));
        i += 1;
    }
    assert(rows.take(config.instances.len() as int) =~= rows);
    push_line(&mut v, owned(""));
    let total = concat3(
        "Total: ",
        u64_to_decimal(config.instances.len() as u64).as_str(),
        " instance(s)",
    );
    push_line(&mut v, total);
    assert(v.deep_view() =~= list_output(config.instances@, installed@));
    v
}

/// Where an instance goes when no path is given: `C:\MT5-<name>` on Windows,
/// else the home directory (`home`, the value of its variable if it is set).
pub fn default_instance_path(os: Os, home: Option<&str>, name: &str) -> (r: Result<
    String,
    String,
>)
    ensures
        os == Os::Windows ==> r is Ok && r->Ok_0@ == "C:\\MT5-"@ + name@,
        os != Os::Windows && home is Some ==> r is Ok && r->Ok_0@ == joined(
            home->0@,
            instance_dir_name(name@),
        ),
        os != Os::Windows && home is None ==> r is Err && r->Err_0@ == missing_variable(),
{
    match os {
        Os::Windows => Ok(concat2("C:\\MT5-", name)),
        _ => match home {
            Some(h) => {
                let dir = concat2("MT5-", name);
                proof {
                    reveal_strlit("MT5-");
                }
                Ok(join_path(h, dir.as_str()))
            },
            None => Err(owned("environment variable not found")),
        },
    }
}

/// The refusal to create an instance in a directory that exists.
pub fn directory_exists(shown: &str) -> (m: String)
    ensures
        m@ == "Directory '"@ + shown@ + "' already exists"@,
{
    concat3("Directory '", shown, "' already exists")
}

/// What `create` prints once the instance is made.
pub fn next_steps(name: &str, shown: &str) -> (v: Vec<String>)
    ensures
        v.deep_view() == seq![
            "Next steps:"@,
            "1. Install MT5 to: "@ + shown@,
            "2. Run the MT5 installer and select this directory as the installation path"@,
            "3. Once installed, use 'mt5-manager start "@ + name@ + "' to launch"@,
        ],
{
    let mut v: Vec<String> = Vec::new();
    push_line(&mut v, owned("Next steps:"));
    push_line(&mut v, concat2("1. Install MT5 to: ", shown));
    push_line(
        &mut v,
        owned("2. Run the MT5 installer and select this directory as the installation path"),
    );
    push_line(&mut v, concat3("3. Once installed, use 'mt5-manager start ", name, "' to launch"));
    v
}

/// What `delete` does: ask for confirmation (these lines) without `force`,
/// else remove the instance at this index of the list.
#[derive(Debug)]
pub enum DeleteDecision {
    Confirm(Vec<String>),
    Remove(usize),
}

/// What an unknown instance is refused with.
pub open spec fn instance_not_found(name: Seq<char>) -> Seq<char> {
    "Instance '"@ + name + "' not found"@
}

/// The confirmation `delete` asks for without `force`.
pub open spec fn confirmation(name: Seq<char>, path: Seq<char>) -> Seq<Seq<char>> {
    seq![
        "Are you sure you want to delete instance '"@ + name + "'?"@,
        "Path: "@ + path,
        "This will remove all files and data in this directory."@,
        ""@,
        "To confirm, run with --force flag:"@,
        "  mt5-manager delete "@ + name + " --force"@,
    ]
}

/// Decides a `delete` command.
pub fn delete_decision(config: &Config, name: &str, force: bool) -> (r: Result<
    DeleteDecision,
    String,
>)
    ensures
        name_index(names(config.instances@), name@) < 0 ==> r is Err && r->Err_0@
            == instance_not_found(name@),
        name_index(names(config.instances@), name@) >= 0 && force ==> (r matches Ok(
            DeleteDecision::Remove(k),
        ) && k == name_index(names(config.instances@), name@)),
        name_index(names(config.instances@), name@) >= 0 && !force ==> (r matches Ok(
            DeleteDecision::Confirm(lines),
        ) && lines.deep_view() == confirmation(
            name@,
            config.instances@[name_index(names(config.instances@), name@)].path@,
        )),
{
    match config.position(name) {
        None => Err(concat3("Instance '", name, "' not found")),
        Some(k) => {
            if force {
                Ok(DeleteDecision::Remove(k))
            } else {
                let path = config.instances[k].path.as_str();
                let mut v: Vec<String> = Vec::new();
                push_line(&mut v, concat3("Are you sure you want to delete instance '", name, "'?"));
                push_line(&mut v, concat2("Path: ", path));
                push_line(&mut v, owned("This will remove all files and data in this directory."));
                push_line(&mut v, owned(""));
                push_line(&mut v, owned("To confirm, run with --force flag:"));
                push_line(&mut v, concat3("  mt5-manager delete ", name, " --force"));
                proof {
                    reveal_strlit("");
                    reveal_strlit("This will remove all files and data in this directory.");
                    reveal_strlit("To confirm, run with --force flag:");
                }
                assert(v.deep_view() =~= confirmation(name@, path@));
                Ok(DeleteDecision::Confirm(v))
            }
        },
    }
}

/// What `start` does: print this and launch nothing, or launch the
/// instances at these indices, in order.
#[derive(Debug)]
pub enum StartPlan {
    Nothing(String),
    Launch(Vec<usize>),
}

/// Decides a `start` command: the named instance, or every instance when
/// none is named (nothing to launch for an empty list).
pub fn start_plan(config: &Config, name: Option<&str>) -> (r: Result<StartPlan, String>)
    ensures
        name is Some && name_index(names(config.instances@), name->0@) < 0 ==> r is Err
            && r->Err_0@ == instance_not_found(name->0@),
        name is Some && name_index(names(config.instances@), name->0@) >= 0 ==> (r matches Ok(
            StartPlan::Launch(v),
        ) && v@ == seq![name_index(names(config.instances@), name->0@) as usize]),
        name is None && config.instances@.len() == 0 ==> (r matches Ok(StartPlan::Nothing(m))
            && m@ == "No instances configured. Create one with 'mt5-manager create <name>'"@),
        name is None && config.instances@.len() > 0 ==> (r matches Ok(StartPlan::Launch(v)) && v@
            == Seq::new(config.instances@.len(), |i: int| i as usize)),
{
    match name {
        Some(n) => match config.position(n) {
            None => Err(concat3("Instance '", n, "' not found")),
            Some(k) => {
                let mut v: Vec<usize> = Vec::new();
                v.push(k);
                assert(v@ =~= seq![k]);
                Ok(StartPlan::Launch(v))
            },
        },
        None => {
            if config.instances.len() == 0 {
                return Ok(
                    StartPlan::Nothing(
                        owned("No instances configured. Create one with 'mt5-manager create <name>'"),
                    ),
                );
            }
            let mut v: Vec<usize> = Vec::new();
            let mut i: usize = 0;
            while i < config.instances.len()
                invariant
                    i <= config.instances.len(),
                    v@ == Seq::new(i as nat, |k: int| k as usize),
                decreases config.instances.len() - i,
            {
                v.push(i);
                assert(v@ =~= Seq::new((i + 1) as nat, |k: int| k as usize));
                i += 1;
            }
            Ok(StartPlan::Launch(v))
        },
    }
}

/// What `start` prints before launching `n` instances.
pub fn starting_message(n: usize) -> (m: String)
    ensures
        m@ == "Starting "@ + decimal(n as nat) + " instance(s)..."@,
{
    concat3("Starting ", u64_to_decimal(n as u64).as_str(), " instance(s)...")
}

/// Where the configuration file is: under `%APPDATA%` on Windows, under the
/// home directory elsewhere (each given as the value of its variable, if it
/// is set).
pub fn config_file_path(os: Os, appdata: Option<&str>, home: Option<&str>) -> (r: Result<
    String,
    String,
>)
    ensures
        os == Os::Windows && appdata is Some ==> r is Ok && r->Ok_0@ == joined_windows(
            joined_windows(appdata->0@, "mt5-manager"@),
            "config.json"@,
        ),
        os == Os::Windows && appdata is None ==> r is Err && r->Err_0@
            == "APPDATA environment variable not found"@,
        os != Os::Windows && home is Some ==> r is Ok && r->Ok_0@ == joined(
            joined(home->0@, ".mt5-manager"@),
            "config.json"@,
        ),
        os != Os::Windows && home is None ==> r is Err && r->Err_0@
            == "HOME environment variable not found"@,
{
    proof {
        reveal_strlit("mt5-manager");
        reveal_strlit(".mt5-manager");
        reveal_strlit("config.json");
    }
    match os {
        Os::Windows => match appdata {
            Some(a) => {
                let dir = join_windows(a, "mt5-manager");
                Ok(join_windows(dir.as_str(), "config.json"))
            },
            None => Err(owned("APPDATA environment variable not found")),
        },
        _ => match home {
            Some(h) => {
                let dir = join_path(h, ".mt5-manager");
                Ok(join_path(dir.as_str(), "config.json"))
            },
            None => Err(owned("HOME environment variable not found")),
        },
    }
}

} // verus!
